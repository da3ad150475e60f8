use vstd::prelude::*;

verus! {

/// One decoded operation, carrying only the operand fields its form needs.
/// This is the contract between the decoder and the execution core; it has
/// no behaviour of its own.
#[derive(Clone, Copy, PartialEq, Eq, Structural, Debug)]
#[allow(inconsistent_fields)]
pub enum Instruction {
    NOP,
    InvalidInstruction,
    ClearDisplay,
    Return,
    Jump { address: u16 },
    Call { address: u16 },
    SkipIfEqual { register: u8, value: u8 },
    SkipIfNotEqual { register: u8, value: u8 },
    SkipIfRegistersEqual { register_1: u8, register_2: u8 },
    LoadRegister { register: u8, value: u8 },
    AddToRegister { register: u8, value: u8 },
    SetRegisterToRegister { destination_register: u8, source_register: u8 },
    OrRegisterToRegister { destination_register: u8, source_register: u8 },
    AndRegisterToRegister { destination_register: u8, source_register: u8 },
    XorRegisterToRegister { destination_register: u8, source_register: u8 },
    AddRegisterToRegister { destination_register: u8, source_register: u8 },
    SubtractRegisterFromRegister { destination_register: u8, source_register: u8 },
    ShiftRight { destination_register: u8, source_register: u8 },
    SubtractIntoDifferentRegister { source_register: u8, destination_register: u8 },
    ShiftLeft { destination_register: u8, source_register: u8 },
    SkipIfRegistersNotEqual { register_1: u8, register_2: u8 },
    SetAddressRegister { value: u16 },
    JumpToLocationAndOffset0 { address: u16 },
    GenerateRandomData { register: u8, value: u8 },
    DisplaySpriteAtLocation { x: u8, y: u8, n: u8 },
    SkipIfPressedKeyEqualToRegister { register: u8 },
    DontSkipIfPressedKeyEqualToRegister { register: u8 },
    SetRegisterToDelayTimer { register: u8 },
    WaitForKeyPressAndStoreValue { register: u8 },
    SetDelayTimerToRegister { register: u8 },
    SetSoundTimerToRegister { register: u8 },
    AddRegisterToRegisterI { register: u8 },
    SetIToFontAddress { digit: u8 },
    StoreBCDValueOfRegisterToI { register: u8 },
    StoreNRegistersToMemory { n: u8 },
    ReadNRegistersFromMemory { n: u8 },
}

/// Bits 15-12 of an instruction word: the primary family selector.
pub open spec fn spec_first_nibble(value: u16) -> u8 {
    (value >> 12u16) as u8
}

/// Bits 11-8: a register index in most families.
pub open spec fn spec_second_nibble(value: u16) -> u8 {
    ((value << 4u16) >> 12u16) as u8
}

/// Bits 7-4: a second register index.
pub open spec fn spec_third_nibble(value: u16) -> u8 {
    ((value << 8u16) >> 12u16) as u8
}

/// Bits 3-0.
pub open spec fn spec_last_nibble(value: u16) -> u8 {
    ((value << 12u16) >> 12u16) as u8
}

/// Bits 7-0.
pub open spec fn spec_last_byte(value: u16) -> u8 {
    ((value << 8u16) >> 8u16) as u8
}

/// Bits 15-8.
pub open spec fn spec_first_byte(value: u16) -> u8 {
    (value >> 8u16) as u8
}

/// Bits 11-0: a 12-bit address or immediate.
pub open spec fn spec_last_3_nibbles(value: u16) -> u16 {
    (value << 4u16) >> 4u16
}

pub fn get_first_nibble(value: &u16) -> (r: u8)
    ensures
        r == spec_first_nibble(*value),
{
    (*value >> 12u16) as u8
}

pub fn get_second_nibble(value: &u16) -> (r: u8)
    ensures
        r == spec_second_nibble(*value),
{
    ((*value << 4u16) >> 12u16) as u8
}

pub fn get_third_nibble(value: &u16) -> (r: u8)
    ensures
        r == spec_third_nibble(*value),
{
    ((*value << 8u16) >> 12u16) as u8
}

pub fn get_last_nibble(value: &u16) -> (r: u8)
    ensures
        r == spec_last_nibble(*value),
{
    ((*value << 12u16) >> 12u16) as u8
}

pub fn get_last_byte(value: &u16) -> (r: u8)
    ensures
        r == spec_last_byte(*value),
{
    ((*value << 8u16) >> 8u16) as u8
}

pub fn get_first_byte(value: &u16) -> (r: u8)
    ensures
        r == spec_first_byte(*value),
{
    (*value >> 8u16) as u8
}

pub fn get_last_3_nibbles(value: &u16) -> (r: u16)
    ensures
        r == spec_last_3_nibbles(*value),
{
    (*value << 4u16) >> 4u16
}

/// The full decode table: every 16-bit word maps to exactly one operation.
/// The top nibble selects a family; families 0, 5, 8, 0xE and 0xF dispatch on
/// a secondary nibble or trailing byte, and any combination not enumerated
/// there resolves to `InvalidInstruction`, never silently to `NOP`.
pub open spec fn spec_decode(word: u16) -> Instruction {
    let n0 = spec_first_nibble(word);
    if n0 == 0 {
        let b = spec_last_byte(word);
        if b == 0xE0 {
            Instruction::ClearDisplay
        } else if b == 0xEE {
            Instruction::Return
        } else {
            Instruction::NOP
        }
    } else if n0 == 1 {
        Instruction::Jump { address: spec_last_3_nibbles(word) }
    } else if n0 == 2 {
        Instruction::Call { address: spec_last_3_nibbles(word) }
    } else if n0 == 3 {
        Instruction::SkipIfEqual {
            register: spec_second_nibble(word),
            value: spec_last_byte(word),
        }
    } else if n0 == 4 {
        Instruction::SkipIfNotEqual {
            register: spec_second_nibble(word),
            value: spec_last_byte(word),
        }
    } else if n0 == 5 {
        if spec_last_nibble(word) == 0 {
            Instruction::SkipIfRegistersEqual {
                register_1: spec_second_nibble(word),
                register_2: spec_third_nibble(word),
            }
        } else {
            Instruction::InvalidInstruction
        }
    } else if n0 == 6 {
        Instruction::LoadRegister {
            register: spec_second_nibble(word),
            value: spec_last_byte(word),
        }
    } else if n0 == 7 {
        Instruction::AddToRegister {
            register: spec_second_nibble(word),
            value: spec_last_byte(word),
        }
    } else if n0 == 8 {
        let r1 = spec_second_nibble(word);
        let r2 = spec_third_nibble(word);
        let n3 = spec_last_nibble(word);
        if n3 == 0 {
            Instruction::SetRegisterToRegister { destination_register: r1, source_register: r2 }
        } else if n3 == 1 {
            Instruction::OrRegisterToRegister { destination_register: r1, source_register: r2 }
        } else if n3 == 2 {
            Instruction::AndRegisterToRegister { destination_register: r1, source_register: r2 }
        } else if n3 == 3 {
            Instruction::XorRegisterToRegister { destination_register: r1, source_register: r2 }
        } else if n3 == 4 {
            Instruction::AddRegisterToRegister { destination_register: r1, source_register: r2 }
        } else if n3 == 5 {
            Instruction::SubtractRegisterFromRegister {
                destination_register: r1,
                source_register: r2,
            }
        } else if n3 == 6 {
            Instruction::ShiftRight { destination_register: r1, source_register: r2 }
        } else if n3 == 7 {
            Instruction::SubtractIntoDifferentRegister {
                source_register: r1,
                destination_register: r2,
            }
        } else if n3 == 0xE {
            Instruction::ShiftLeft { destination_register: r1, source_register: r2 }
        } else {
            Instruction::InvalidInstruction
        }
    } else if n0 == 9 {
        Instruction::SkipIfRegistersNotEqual {
            register_1: spec_second_nibble(word),
            register_2: spec_third_nibble(word),
        }
    } else if n0 == 0xA {
        Instruction::SetAddressRegister { value: spec_last_3_nibbles(word) }
    } else if n0 == 0xB {
        Instruction::JumpToLocationAndOffset0 { address: spec_last_3_nibbles(word) }
    } else if n0 == 0xC {
        Instruction::GenerateRandomData {
            register: spec_second_nibble(word),
            value: spec_last_byte(word),
        }
    } else if n0 == 0xD {
        Instruction::DisplaySpriteAtLocation {
            x: spec_second_nibble(word),
            y: spec_third_nibble(word),
            n: spec_last_nibble(word),
        }
    } else if n0 == 0xE {
        let b = spec_last_byte(word);
        if b == 0x9E {
            Instruction::SkipIfPressedKeyEqualToRegister { register: spec_second_nibble(word) }
        } else if b == 0xA1 {
            Instruction::DontSkipIfPressedKeyEqualToRegister {
                register: spec_second_nibble(word),
            }
        } else {
            Instruction::InvalidInstruction
        }
    } else if n0 == 0xF {
        let b = spec_last_byte(word);
        if b == 0x07 {
            Instruction::SetRegisterToDelayTimer { register: spec_second_nibble(word) }
        } else if b == 0x0A {
            Instruction::WaitForKeyPressAndStoreValue { register: spec_second_nibble(word) }
        } else if b == 0x15 {
            Instruction::SetDelayTimerToRegister { register: spec_second_nibble(word) }
        } else if b == 0x18 {
            Instruction::SetSoundTimerToRegister { register: spec_second_nibble(word) }
        } else if b == 0x1E {
            Instruction::AddRegisterToRegisterI { register: spec_second_nibble(word) }
        } else if b == 0x29 {
            Instruction::SetIToFontAddress { digit: spec_second_nibble(word) }
        } else if b == 0x33 {
            Instruction::StoreBCDValueOfRegisterToI { register: spec_second_nibble(word) }
        } else if b == 0x55 {
            Instruction::StoreNRegistersToMemory { n: spec_second_nibble(word) }
        } else if b == 0x65 {
            Instruction::ReadNRegistersFromMemory { n: spec_second_nibble(word) }
        } else {
            Instruction::InvalidInstruction
        }
    } else {
        Instruction::InvalidInstruction
    }
}

/// Every operand field a decoded word can carry that names a register, a
/// glyph digit or a row count is a nibble, hence below 16.
pub open spec fn decoded_wf(ins: Instruction) -> bool {
    match ins {
        Instruction::SkipIfEqual { register, .. } => register < 16,
        Instruction::SkipIfNotEqual { register, .. } => register < 16,
        Instruction::SkipIfRegistersEqual { register_1, register_2 } => register_1 < 16
            && register_2 < 16,
        Instruction::LoadRegister { register, .. } => register < 16,
        Instruction::AddToRegister { register, .. } => register < 16,
        Instruction::SetRegisterToRegister { destination_register, source_register } => {
            destination_register < 16 && source_register < 16
        },
        Instruction::OrRegisterToRegister { destination_register, source_register } => {
            destination_register < 16 && source_register < 16
        },
        Instruction::AndRegisterToRegister { destination_register, source_register } => {
            destination_register < 16 && source_register < 16
        },
        Instruction::XorRegisterToRegister { destination_register, source_register } => {
            destination_register < 16 && source_register < 16
        },
        Instruction::AddRegisterToRegister { destination_register, source_register } => {
            destination_register < 16 && source_register < 16
        },
        Instruction::SubtractRegisterFromRegister { destination_register, source_register } => {
            destination_register < 16 && source_register < 16
        },
        Instruction::ShiftRight { destination_register, source_register } => {
            destination_register < 16 && source_register < 16
        },
        Instruction::SubtractIntoDifferentRegister { source_register, destination_register } => {
            destination_register < 16 && source_register < 16
        },
        Instruction::ShiftLeft { destination_register, source_register } => {
            destination_register < 16 && source_register < 16
        },
        Instruction::SkipIfRegistersNotEqual { register_1, register_2 } => register_1 < 16
            && register_2 < 16,
        Instruction::GenerateRandomData { register, .. } => register < 16,
        Instruction::DisplaySpriteAtLocation { x, y, n } => x < 16 && y < 16 && n < 16,
        Instruction::SkipIfPressedKeyEqualToRegister { register } => register < 16,
        Instruction::DontSkipIfPressedKeyEqualToRegister { register } => register < 16,
        Instruction::SetRegisterToDelayTimer { register } => register < 16,
        Instruction::WaitForKeyPressAndStoreValue { register } => register < 16,
        Instruction::SetDelayTimerToRegister { register } => register < 16,
        Instruction::SetSoundTimerToRegister { register } => register < 16,
        Instruction::AddRegisterToRegisterI { register } => register < 16,
        Instruction::SetIToFontAddress { digit } => digit < 16,
        Instruction::StoreBCDValueOfRegisterToI { register } => register < 16,
        Instruction::StoreNRegistersToMemory { n } => n < 16,
        Instruction::ReadNRegistersFromMemory { n } => n < 16,
        _ => true,
    }
}

/// The nibble fields of a word are bounded by 16, and the 12-bit field by
/// 0x1000.
pub proof fn lemma_field_bounds(w: u16)
    by (bit_vector)
    ensures
        spec_first_nibble(w) < 16,
        spec_second_nibble(w) < 16,
        spec_third_nibble(w) < 16,
        spec_last_nibble(w) < 16,
        spec_last_3_nibbles(w) < 0x1000,
{
}

/// Decoding always yields a well-formed operation: every register index,
/// glyph digit and row count it carries is below 16.
pub proof fn lemma_decode_wf(word: u16)
    ensures
        decoded_wf(spec_decode(word)),
{
    lemma_field_bounds(word);
}

impl Instruction {
    /// Decode one instruction word. Total: every input maps to exactly one
    /// operation, and no input fails.
    pub fn fetch_opcode(word: &u16) -> (r: Instruction)
        ensures
            r == spec_decode(*word),
            decoded_wf(r),
    {
        proof {
            lemma_decode_wf(*word);
        }
        match get_first_nibble(word) {
            0 => match get_last_byte(word) {
                0xE0 => Instruction::ClearDisplay,
                0xEE => Instruction::Return,
                _ => Instruction::NOP,
            },
            1 => Instruction::Jump { address: get_last_3_nibbles(word) },
            2 => Instruction::Call { address: get_last_3_nibbles(word) },
            3 => Instruction::SkipIfEqual {
                register: get_second_nibble(word),
                value: get_last_byte(word),
            },
            4 => Instruction::SkipIfNotEqual {
                register: get_second_nibble(word),
                value: get_last_byte(word),
            },
            5 => match get_last_nibble(word) {
                0 => Instruction::SkipIfRegistersEqual {
                    register_1: get_second_nibble(word),
                    register_2: get_third_nibble(word),
                },
                _ => Instruction::InvalidInstruction,
            },
            6 => Instruction::LoadRegister {
                register: get_second_nibble(word),
                value: get_last_byte(word),
            },
            7 => Instruction::AddToRegister {
                register: get_second_nibble(word),
                value: get_last_byte(word),
            },
            8 => {
                let register_1: u8 = get_second_nibble(word);
                let register_2: u8 = get_third_nibble(word);
                match get_last_nibble(word) {
                    0 => Instruction::SetRegisterToRegister {
                        destination_register: register_1,
                        source_register: register_2,
                    },
                    1 => Instruction::OrRegisterToRegister {
                        destination_register: register_1,
                        source_register: register_2,
                    },
                    2 => Instruction::AndRegisterToRegister {
                        destination_register: register_1,
                        source_register: register_2,
                    },
                    3 => Instruction::XorRegisterToRegister {
                        destination_register: register_1,
                        source_register: register_2,
                    },
                    4 => Instruction::AddRegisterToRegister {
                        destination_register: register_1,
                        source_register: register_2,
                    },
                    5 => Instruction::SubtractRegisterFromRegister {
                        destination_register: register_1,
                        source_register: register_2,
                    },
                    6 => Instruction::ShiftRight {
                        destination_register: register_1,
                        source_register: register_2,
                    },
                    7 => Instruction::SubtractIntoDifferentRegister {
                        source_register: register_1,
                        destination_register: register_2,
                    },
                    0xE => Instruction::ShiftLeft {
                        destination_register: register_1,
                        source_register: register_2,
                    },
                    _ => Instruction::InvalidInstruction,
                }
            },
            9 => Instruction::SkipIfRegistersNotEqual {
                register_1: get_second_nibble(word),
                register_2: get_third_nibble(word),
            },
            0xA => Instruction::SetAddressRegister { value: get_last_3_nibbles(word) },
            0xB => Instruction::JumpToLocationAndOffset0 { address: get_last_3_nibbles(word) },
            0xC => Instruction::GenerateRandomData {
                register: get_second_nibble(word),
                value: get_last_byte(word),
            },
            0xD => Instruction::DisplaySpriteAtLocation {
                x: get_second_nibble(word),
                y: get_third_nibble(word),
                n: get_last_nibble(word),
            },
            0xE => match get_last_byte(word) {
                0x9E => Instruction::SkipIfPressedKeyEqualToRegister {
                    register: get_second_nibble(word),
                },
                0xA1 => Instruction::DontSkipIfPressedKeyEqualToRegister {
                    register: get_second_nibble(word),
                },
                _ => Instruction::InvalidInstruction,
            },
            0xF => match get_last_byte(word) {
                0x07 => Instruction::SetRegisterToDelayTimer {
                    register: get_second_nibble(word),
                },
                0x0A => Instruction::WaitForKeyPressAndStoreValue {
                    register: get_second_nibble(word),
                },
                0x15 => Instruction::SetDelayTimerToRegister {
                    register: get_second_nibble(word),
                },
                0x18 => Instruction::SetSoundTimerToRegister {
                    register: get_second_nibble(word),
                },
                0x1E => Instruction::AddRegisterToRegisterI {
                    register: get_second_nibble(word),
                },
                0x29 => Instruction::SetIToFontAddress { digit: get_second_nibble(word) },
                0x33 => Instruction::StoreBCDValueOfRegisterToI {
                    register: get_second_nibble(word),
                },
                0x55 => Instruction::StoreNRegistersToMemory { n: get_second_nibble(word) },
                0x65 => Instruction::ReadNRegistersFromMemory { n: get_second_nibble(word) },
                _ => Instruction::InvalidInstruction,
            },
            _ => Instruction::InvalidInstruction,
        }
    }
}

} // verus!
