use vstd::prelude::*;

use crate::errors::Fault;
use crate::graphics::draw_model;
use crate::graphics::SCREEN_PIXELS;
use crate::input::key_down;
use crate::input::KEY_COUNT;
use crate::instructions::spec_decode;
use crate::instructions::Instruction;
use crate::memory::font_set;
use crate::memory::spec_word_at;
use crate::memory::FONT_SIZE;
use crate::memory::FONT_START;
use crate::memory::MEMORY_SIZE;

verus! {

/// Mathematical state of the whole machine: register file, call stack,
/// address register, flag register, program counter, stack pointer, the two
/// countdown timers, the memory image, and the peripheral state the core
/// reads and writes during a step.
pub ghost struct CpuModel {
    pub regs: Seq<u8>,
    pub stack: Seq<u16>,
    pub i: u16,
    pub vf: u8,
    pub pc: u16,
    pub sp: nat,
    pub dt: u8,
    pub st: u8,
    pub mem: Seq<u8>,
    pub screen: Seq<bool>,
    pub keys: Seq<bool>,
    pub last_key: Option<u8>,
}

pub open spec fn model_wf(m: CpuModel) -> bool {
    &&& m.regs.len() == 16
    &&& m.stack.len() == 16
    &&& m.sp <= 16
    &&& m.mem.len() == MEMORY_SIZE
    &&& m.screen.len() == SCREEN_PIXELS
    &&& m.keys.len() == KEY_COUNT
    &&& match m.last_key {
        Some(k) => k < KEY_COUNT,
        None => true,
    }
}

/// The program counter advanced by one instruction width, modulo 16 bits.
pub open spec fn bump(pc: u16) -> u16 {
    ((pc + 2) % 0x10000) as u16
}

/// 8-bit wrap of a non-negative value.
pub open spec fn wrap8(v: int) -> u8 {
    (v % 256) as u8
}

/// 16-bit wrap of a non-negative value.
pub open spec fn wrap16(v: int) -> u16 {
    (v % 0x10000) as u16
}

/// `mem` with the first `k` of `regs` written at `base` onwards.
pub open spec fn store_seq(mem: Seq<u8>, regs: Seq<u8>, base: int, k: nat) -> Seq<u8>
    decreases k,
{
    if k == 0 {
        mem
    } else {
        store_seq(mem, regs, base, (k - 1) as nat).update(base + k - 1, regs[k - 1])
    }
}

/// `regs` with its first `k` entries replaced by memory at `base` onwards.
pub open spec fn load_seq(regs: Seq<u8>, mem: Seq<u8>, base: int, k: nat) -> Seq<u8>
    decreases k,
{
    if k == 0 {
        regs
    } else {
        load_seq(regs, mem, base, (k - 1) as nat).update(k - 1, mem[base + k - 1])
    }
}

/// The machine after applying one decoded operation, or the fault that aborts
/// it. `rnd` is the byte the random source produced, consulted only by the
/// random-masked load. This is the semantics every execution-path contract is
/// stated against.
pub open spec fn exec_model(m: CpuModel, ins: Instruction, rnd: u8) -> Result<CpuModel, Fault> {
    match ins {
        Instruction::NOP => Ok(CpuModel { pc: bump(m.pc), ..m }),
        Instruction::InvalidInstruction => Ok(CpuModel { pc: bump(m.pc), ..m }),
        Instruction::ClearDisplay => Ok(
            CpuModel {
                screen: Seq::new(SCREEN_PIXELS as nat, |i: int| false),
                pc: bump(m.pc),
                ..m
            },
        ),
        Instruction::Return => {
            if m.sp == 0 {
                Err(Fault::StackUnderflow)
            } else {
                Ok(CpuModel { sp: (m.sp - 1) as nat, pc: m.stack[m.sp - 1], ..m })
            }
        },
        Instruction::Jump { address } => Ok(CpuModel { pc: address, ..m }),
        Instruction::Call { address } => {
            if m.sp >= 16 {
                Err(Fault::StackOverflow)
            } else {
                Ok(
                    CpuModel {
                        stack: m.stack.update(m.sp as int, bump(m.pc)),
                        sp: (m.sp + 1) as nat,
                        pc: address,
                        ..m
                    },
                )
            }
        },
        Instruction::SkipIfEqual { register, value } => Ok(
            CpuModel {
                pc: if m.regs[register as int] == value {
                    bump(bump(m.pc))
                } else {
                    bump(m.pc)
                },
                ..m
            },
        ),
        Instruction::SkipIfNotEqual { register, value } => Ok(
            CpuModel {
                pc: if m.regs[register as int] != value {
                    bump(bump(m.pc))
                } else {
                    bump(m.pc)
                },
                ..m
            },
        ),
        Instruction::SkipIfRegistersEqual { register_1, register_2 } => Ok(
            CpuModel {
                pc: if m.regs[register_1 as int] == m.regs[register_2 as int] {
                    bump(bump(m.pc))
                } else {
                    bump(m.pc)
                },
                ..m
            },
        ),
        Instruction::LoadRegister { register, value } => Ok(
            CpuModel { regs: m.regs.update(register as int, value), pc: bump(m.pc), ..m },
        ),
        Instruction::AddToRegister { register, value } => Ok(
            CpuModel {
                regs: m.regs.update(register as int, wrap8(m.regs[register as int] + value)),
                pc: bump(m.pc),
                ..m
            },
        ),
        Instruction::SetRegisterToRegister { destination_register, source_register } => Ok(
            CpuModel {
                regs: m.regs.update(destination_register as int, m.regs[source_register as int]),
                pc: bump(m.pc),
                ..m
            },
        ),
        Instruction::OrRegisterToRegister { destination_register, source_register } => Ok(
            CpuModel {
                regs: m.regs.update(
                    destination_register as int,
                    m.regs[destination_register as int] | m.regs[source_register as int],
                ),
                pc: bump(m.pc),
                ..m
            },
        ),
        Instruction::AndRegisterToRegister { destination_register, source_register } => Ok(
            CpuModel {
                regs: m.regs.update(
                    destination_register as int,
                    m.regs[destination_register as int] & m.regs[source_register as int],
                ),
                pc: bump(m.pc),
                ..m
            },
        ),
        Instruction::XorRegisterToRegister { destination_register, source_register } => Ok(
            CpuModel {
                regs: m.regs.update(
                    destination_register as int,
                    m.regs[destination_register as int] ^ m.regs[source_register as int],
                ),
                pc: bump(m.pc),
                ..m
            },
        ),
        Instruction::AddRegisterToRegister { destination_register, source_register } => {
            let s = m.regs[source_register as int];
            let d = m.regs[destination_register as int];
            Ok(
                CpuModel {
                    regs: m.regs.update(destination_register as int, wrap8(s + d)),
                    vf: if s + d > 255 {
                        1u8
                    } else {
                        0u8
                    },
                    pc: bump(m.pc),
                    ..m
                },
            )
        },
        Instruction::SubtractRegisterFromRegister { destination_register, source_register } => {
            let s = m.regs[source_register as int];
            let d = m.regs[destination_register as int];
            Ok(
                CpuModel {
                    regs: m.regs.update(destination_register as int, wrap8(d + 256 - s)),
                    vf: if s <= d {
                        1u8
                    } else {
                        0u8
                    },
                    pc: bump(m.pc),
                    ..m
                },
            )
        },
        Instruction::ShiftRight { destination_register, source_register } => {
            let val = m.regs[source_register as int];
            Ok(
                CpuModel {
                    regs: m.regs.update(destination_register as int, val >> 1u8),
                    vf: val & 1u8,
                    pc: bump(m.pc),
                    ..m
                },
            )
        },
        Instruction::SubtractIntoDifferentRegister { source_register, destination_register } => {
            let s = m.regs[source_register as int];
            let d = m.regs[destination_register as int];
            Ok(
                CpuModel {
                    regs: m.regs.update(destination_register as int, wrap8(s + 256 - d)),
                    vf: if d <= s {
                        1u8
                    } else {
                        0u8
                    },
                    pc: bump(m.pc),
                    ..m
                },
            )
        },
        Instruction::ShiftLeft { destination_register, source_register } => {
            let val = m.regs[source_register as int];
            Ok(
                CpuModel {
                    regs: m.regs.update(destination_register as int, val << 1u8),
                    vf: (val >> 7u8) & 1u8,
                    pc: bump(m.pc),
                    ..m
                },
            )
        },
        Instruction::SkipIfRegistersNotEqual { register_1, register_2 } => Ok(
            CpuModel {
                pc: if m.regs[register_1 as int] != m.regs[register_2 as int] {
                    bump(bump(m.pc))
                } else {
                    bump(m.pc)
                },
                ..m
            },
        ),
        Instruction::SetAddressRegister { value } => Ok(
            CpuModel { i: value, pc: bump(m.pc), ..m },
        ),
        Instruction::JumpToLocationAndOffset0 { address } => Ok(
            CpuModel { pc: wrap16(address + m.regs[0]), ..m },
        ),
        Instruction::GenerateRandomData { register, value } => Ok(
            CpuModel { regs: m.regs.update(register as int, rnd & value), pc: bump(m.pc), ..m },
        ),
        Instruction::DisplaySpriteAtLocation { x, y, n } => {
            if m.i + n > MEMORY_SIZE {
                Err(Fault::OutOfBounds)
            } else {
                let rows = m.mem.subrange(m.i as int, m.i + n);
                let dr = draw_model(
                    m.screen,
                    m.regs[x as int] as int,
                    m.regs[y as int] as int,
                    rows,
                );
                Ok(
                    CpuModel {
                        screen: dr.0,
                        vf: if dr.1 {
                            1u8
                        } else {
                            0u8
                        },
                        pc: bump(m.pc),
                        ..m
                    },
                )
            }
        },
        Instruction::SkipIfPressedKeyEqualToRegister { register } => Ok(
            CpuModel {
                pc: if key_down(m.keys, m.regs[register as int]) {
                    bump(bump(m.pc))
                } else {
                    bump(m.pc)
                },
                ..m
            },
        ),
        Instruction::DontSkipIfPressedKeyEqualToRegister { register } => Ok(
            CpuModel {
                pc: if !key_down(m.keys, m.regs[register as int]) {
                    bump(bump(m.pc))
                } else {
                    bump(m.pc)
                },
                ..m
            },
        ),
        Instruction::SetRegisterToDelayTimer { register } => Ok(
            CpuModel { regs: m.regs.update(register as int, m.dt), pc: bump(m.pc), ..m },
        ),
        Instruction::WaitForKeyPressAndStoreValue { register } => {
            match m.last_key {
                None => Ok(m),
                Some(k) => Ok(
                    CpuModel { regs: m.regs.update(register as int, k), pc: bump(m.pc), ..m },
                ),
            }
        },
        Instruction::SetDelayTimerToRegister { register } => Ok(
            CpuModel { dt: m.regs[register as int], pc: bump(m.pc), ..m },
        ),
        Instruction::SetSoundTimerToRegister { register } => Ok(
            CpuModel { st: m.regs[register as int], pc: bump(m.pc), ..m },
        ),
        Instruction::AddRegisterToRegisterI { register } => Ok(
            CpuModel { i: wrap16(m.i + m.regs[register as int]), pc: bump(m.pc), ..m },
        ),
        Instruction::SetIToFontAddress { digit } => Ok(
            CpuModel {
                i: (FONT_START + (digit as u16) * (FONT_SIZE as u16)) as u16,
                pc: bump(m.pc),
                ..m
            },
        ),
        Instruction::StoreBCDValueOfRegisterToI { register } => {
            if m.i + 3 > MEMORY_SIZE {
                Err(Fault::OutOfBounds)
            } else {
                let v = m.regs[register as int];
                Ok(
                    CpuModel {
                        mem: m.mem.update(m.i as int, (v / 100) as u8).update(
                            m.i + 1,
                            ((v / 10) % 10) as u8,
                        ).update(m.i + 2, (v % 10) as u8),
                        pc: bump(m.pc),
                        ..m
                    },
                )
            }
        },
        Instruction::StoreNRegistersToMemory { n } => {
            if m.i + n + 1 > MEMORY_SIZE {
                Err(Fault::OutOfBounds)
            } else {
                Ok(
                    CpuModel {
                        mem: store_seq(m.mem, m.regs, m.i as int, (n + 1) as nat),
                        pc: bump(m.pc),
                        ..m
                    },
                )
            }
        },
        Instruction::ReadNRegistersFromMemory { n } => {
            if m.i + n + 1 > MEMORY_SIZE {
                Err(Fault::OutOfBounds)
            } else {
                Ok(
                    CpuModel {
                        regs: load_seq(m.regs, m.mem, m.i as int, (n + 1) as nat),
                        pc: bump(m.pc),
                        ..m
                    },
                )
            }
        },
    }
}

/// The instruction word fetched at the program counter, or the fault when the
/// two-byte read would run past the end of memory.
pub open spec fn fetch_model(m: CpuModel) -> Result<u16, Fault> {
    if m.pc + 1 < MEMORY_SIZE {
        Ok(spec_word_at(m.mem, m.pc as int))
    } else {
        Err(Fault::OutOfBounds)
    }
}

/// One whole cycle: fetch, decode, apply. A failing fetch never reaches
/// decode or apply.
pub open spec fn step_model(m: CpuModel, rnd: u8) -> Result<CpuModel, Fault> {
    match fetch_model(m) {
        Ok(w) => exec_model(m, spec_decode(w), rnd),
        Err(f) => Err(f),
    }
}

/// How one application of an operation relates machine states before and
/// after, together with its result: success leaves the machine at the model's
/// successor, a fault propagates with the machine untouched.
pub open spec fn execute_rel(
    pre: CpuModel,
    post: CpuModel,
    r: Result<(), Fault>,
    ins: Instruction,
    rnd: u8,
) -> bool {
    match exec_model(pre, ins, rnd) {
        Ok(v) => r == Ok::<(), Fault>(()) && post == v,
        Err(f) => r == Err::<(), Fault>(f) && post == pre,
    }
}

/// As `execute_rel`, for a whole fetch-decode-apply cycle.
pub open spec fn step_rel(pre: CpuModel, post: CpuModel, r: Result<(), Fault>, rnd: u8) -> bool {
    match step_model(pre, rnd) {
        Ok(v) => r == Ok::<(), Fault>(()) && post == v,
        Err(f) => r == Err::<(), Fault>(f) && post == pre,
    }
}

/// A freshly constructed machine: everything zero but the glyph table.
pub open spec fn initial_model(m: CpuModel) -> bool {
    &&& model_wf(m)
    &&& forall|j: int| 0 <= j < 16 ==> m.regs[j] == 0u8
    &&& forall|j: int| 0 <= j < 16 ==> m.stack[j] == 0u16
    &&& m.i == 0
    &&& m.vf == 0
    &&& m.pc == 0
    &&& m.sp == 0
    &&& m.dt == 0
    &&& m.st == 0
    &&& forall|j: int| 0 <= j < 80 ==> m.mem[j] == font_set()[j]
    &&& forall|j: int| 80 <= j < MEMORY_SIZE ==> m.mem[j] == 0u8
    &&& forall|j: int| 0 <= j < SCREEN_PIXELS ==> !m.screen[j]
    &&& forall|j: int| 0 <= j < KEY_COUNT ==> !m.keys[j]
    &&& m.last_key is None
}

} // verus!
