use vstd::prelude::*;

use crate::errors::Fault;
use crate::instructions::spec_decode;
use crate::instructions::Instruction;
use crate::memory::MEMORY_SIZE;
use crate::model::bump;
use crate::model::exec_model;
use crate::model::fetch_model;
use crate::model::model_wf;
use crate::model::step_model;
use crate::model::CpuModel;

verus! {

/// Every one of the 36 operation kinds is reached by at least one
/// instruction word, and field extraction recovers exactly the operand
/// nibbles, bytes and 12-bit addresses that were encoded.
pub proof fn lemma_decode_reaches_every_kind()
    ensures
        spec_decode(0x0000) == Instruction::NOP,
        spec_decode(0x00E0) == Instruction::ClearDisplay,
        spec_decode(0x00EE) == Instruction::Return,
        spec_decode(0x5001) == Instruction::InvalidInstruction,
        spec_decode(0x1FEF) == (Instruction::Jump { address: 0xFEF }),
        spec_decode(0x2FEF) == (Instruction::Call { address: 0xFEF }),
        spec_decode(0x3355) == (Instruction::SkipIfEqual { register: 3, value: 0x55 }),
        spec_decode(0x4355) == (Instruction::SkipIfNotEqual { register: 3, value: 0x55 }),
        spec_decode(0x5350) == (Instruction::SkipIfRegistersEqual {
            register_1: 3,
            register_2: 5,
        }),
        spec_decode(0x6355) == (Instruction::LoadRegister { register: 3, value: 0x55 }),
        spec_decode(0x7344) == (Instruction::AddToRegister { register: 3, value: 0x44 }),
        spec_decode(0x8350) == (Instruction::SetRegisterToRegister {
            destination_register: 3,
            source_register: 5,
        }),
        spec_decode(0x8351) == (Instruction::OrRegisterToRegister {
            destination_register: 3,
            source_register: 5,
        }),
        spec_decode(0x8352) == (Instruction::AndRegisterToRegister {
            destination_register: 3,
            source_register: 5,
        }),
        spec_decode(0x8353) == (Instruction::XorRegisterToRegister {
            destination_register: 3,
            source_register: 5,
        }),
        spec_decode(0x8354) == (Instruction::AddRegisterToRegister {
            destination_register: 3,
            source_register: 5,
        }),
        spec_decode(0x8355) == (Instruction::SubtractRegisterFromRegister {
            destination_register: 3,
            source_register: 5,
        }),
        spec_decode(0x8356) == (Instruction::ShiftRight {
            destination_register: 3,
            source_register: 5,
        }),
        spec_decode(0x8357) == (Instruction::SubtractIntoDifferentRegister {
            source_register: 3,
            destination_register: 5,
        }),
        spec_decode(0x835E) == (Instruction::ShiftLeft {
            destination_register: 3,
            source_register: 5,
        }),
        spec_decode(0x9350) == (Instruction::SkipIfRegistersNotEqual {
            register_1: 3,
            register_2: 5,
        }),
        spec_decode(0xA351) == (Instruction::SetAddressRegister { value: 0x351 }),
        spec_decode(0xB351) == (Instruction::JumpToLocationAndOffset0 { address: 0x351 }),
        spec_decode(0xC351) == (Instruction::GenerateRandomData { register: 3, value: 0x51 }),
        spec_decode(0xD351) == (Instruction::DisplaySpriteAtLocation { x: 3, y: 5, n: 1 }),
        spec_decode(0xE39E) == (Instruction::SkipIfPressedKeyEqualToRegister { register: 3 }),
        spec_decode(0xE3A1) == (Instruction::DontSkipIfPressedKeyEqualToRegister {
            register: 3,
        }),
        spec_decode(0xF307) == (Instruction::SetRegisterToDelayTimer { register: 3 }),
        spec_decode(0xF30A) == (Instruction::WaitForKeyPressAndStoreValue { register: 3 }),
        spec_decode(0xF315) == (Instruction::SetDelayTimerToRegister { register: 3 }),
        spec_decode(0xF318) == (Instruction::SetSoundTimerToRegister { register: 3 }),
        spec_decode(0xF31E) == (Instruction::AddRegisterToRegisterI { register: 3 }),
        spec_decode(0xF329) == (Instruction::SetIToFontAddress { digit: 3 }),
        spec_decode(0xF333) == (Instruction::StoreBCDValueOfRegisterToI { register: 3 }),
        spec_decode(0xF355) == (Instruction::StoreNRegistersToMemory { n: 3 }),
        spec_decode(0xF365) == (Instruction::ReadNRegistersFromMemory { n: 3 }),
{
    assert(crate::instructions::spec_first_nibble(0x0000) == 0
        && crate::instructions::spec_last_byte(0x0000) == 0
        && crate::instructions::spec_first_nibble(0x00E0) == 0
        && crate::instructions::spec_last_byte(0x00E0) == 0xE0
        && crate::instructions::spec_first_nibble(0x00EE) == 0
        && crate::instructions::spec_last_byte(0x00EE) == 0xEE
        && crate::instructions::spec_first_nibble(0x5001) == 5
        && crate::instructions::spec_last_nibble(0x5001) == 1) by (bit_vector);
    assert(crate::instructions::spec_first_nibble(0x1FEF) == 1
        && crate::instructions::spec_last_3_nibbles(0x1FEF) == 0xFEF
        && crate::instructions::spec_first_nibble(0x2FEF) == 2
        && crate::instructions::spec_last_3_nibbles(0x2FEF) == 0xFEF
        && crate::instructions::spec_first_nibble(0x3355) == 3
        && crate::instructions::spec_second_nibble(0x3355) == 3
        && crate::instructions::spec_last_byte(0x3355) == 0x55
        && crate::instructions::spec_first_nibble(0x4355) == 4
        && crate::instructions::spec_second_nibble(0x4355) == 3
        && crate::instructions::spec_last_byte(0x4355) == 0x55
        && crate::instructions::spec_first_nibble(0x5350) == 5
        && crate::instructions::spec_second_nibble(0x5350) == 3
        && crate::instructions::spec_third_nibble(0x5350) == 5
        && crate::instructions::spec_last_nibble(0x5350) == 0) by (bit_vector);
    assert(crate::instructions::spec_first_nibble(0x6355) == 6
        && crate::instructions::spec_second_nibble(0x6355) == 3
        && crate::instructions::spec_last_byte(0x6355) == 0x55
        && crate::instructions::spec_first_nibble(0x7344) == 7
        && crate::instructions::spec_second_nibble(0x7344) == 3
        && crate::instructions::spec_last_byte(0x7344) == 0x44) by (bit_vector);
    assert(crate::instructions::spec_first_nibble(0x8350) == 8
        && crate::instructions::spec_second_nibble(0x8350) == 3
        && crate::instructions::spec_third_nibble(0x8350) == 5
        && crate::instructions::spec_last_nibble(0x8350) == 0
        && crate::instructions::spec_first_nibble(0x8351) == 8
        && crate::instructions::spec_second_nibble(0x8351) == 3
        && crate::instructions::spec_third_nibble(0x8351) == 5
        && crate::instructions::spec_last_nibble(0x8351) == 1
        && crate::instructions::spec_first_nibble(0x8352) == 8
        && crate::instructions::spec_second_nibble(0x8352) == 3
        && crate::instructions::spec_third_nibble(0x8352) == 5
        && crate::instructions::spec_last_nibble(0x8352) == 2
        && crate::instructions::spec_first_nibble(0x8353) == 8
        && crate::instructions::spec_second_nibble(0x8353) == 3
        && crate::instructions::spec_third_nibble(0x8353) == 5
        && crate::instructions::spec_last_nibble(0x8353) == 3
        && crate::instructions::spec_first_nibble(0x8354) == 8
        && crate::instructions::spec_second_nibble(0x8354) == 3
        && crate::instructions::spec_third_nibble(0x8354) == 5
        && crate::instructions::spec_last_nibble(0x8354) == 4) by (bit_vector);
    assert(crate::instructions::spec_first_nibble(0x8355) == 8
        && crate::instructions::spec_second_nibble(0x8355) == 3
        && crate::instructions::spec_third_nibble(0x8355) == 5
        && crate::instructions::spec_last_nibble(0x8355) == 5
        && crate::instructions::spec_first_nibble(0x8356) == 8
        && crate::instructions::spec_second_nibble(0x8356) == 3
        && crate::instructions::spec_third_nibble(0x8356) == 5
        && crate::instructions::spec_last_nibble(0x8356) == 6
        && crate::instructions::spec_first_nibble(0x8357) == 8
        && crate::instructions::spec_second_nibble(0x8357) == 3
        && crate::instructions::spec_third_nibble(0x8357) == 5
        && crate::instructions::spec_last_nibble(0x8357) == 7
        && crate::instructions::spec_first_nibble(0x835E) == 8
        && crate::instructions::spec_second_nibble(0x835E) == 3
        && crate::instructions::spec_third_nibble(0x835E) == 5
        && crate::instructions::spec_last_nibble(0x835E) == 0xE) by (bit_vector);
    assert(crate::instructions::spec_first_nibble(0x9350) == 9
        && crate::instructions::spec_second_nibble(0x9350) == 3
        && crate::instructions::spec_third_nibble(0x9350) == 5
        && crate::instructions::spec_first_nibble(0xA351) == 0xA
        && crate::instructions::spec_last_3_nibbles(0xA351) == 0x351
        && crate::instructions::spec_first_nibble(0xB351) == 0xB
        && crate::instructions::spec_last_3_nibbles(0xB351) == 0x351
        && crate::instructions::spec_first_nibble(0xC351) == 0xC
        && crate::instructions::spec_second_nibble(0xC351) == 3
        && crate::instructions::spec_last_byte(0xC351) == 0x51
        && crate::instructions::spec_first_nibble(0xD351) == 0xD
        && crate::instructions::spec_second_nibble(0xD351) == 3
        && crate::instructions::spec_third_nibble(0xD351) == 5
        && crate::instructions::spec_last_nibble(0xD351) == 1) by (bit_vector);
    assert(crate::instructions::spec_first_nibble(0xE39E) == 0xE
        && crate::instructions::spec_second_nibble(0xE39E) == 3
        && crate::instructions::spec_last_byte(0xE39E) == 0x9E
        && crate::instructions::spec_first_nibble(0xE3A1) == 0xE
        && crate::instructions::spec_second_nibble(0xE3A1) == 3
        && crate::instructions::spec_last_byte(0xE3A1) == 0xA1) by (bit_vector);
    assert(crate::instructions::spec_first_nibble(0xF307) == 0xF
        && crate::instructions::spec_second_nibble(0xF307) == 3
        && crate::instructions::spec_last_byte(0xF307) == 0x07
        && crate::instructions::spec_first_nibble(0xF30A) == 0xF
        && crate::instructions::spec_second_nibble(0xF30A) == 3
        && crate::instructions::spec_last_byte(0xF30A) == 0x0A
        && crate::instructions::spec_first_nibble(0xF315) == 0xF
        && crate::instructions::spec_second_nibble(0xF315) == 3
        && crate::instructions::spec_last_byte(0xF315) == 0x15
        && crate::instructions::spec_first_nibble(0xF318) == 0xF
        && crate::instructions::spec_second_nibble(0xF318) == 3
        && crate::instructions::spec_last_byte(0xF318) == 0x18
        && crate::instructions::spec_first_nibble(0xF31E) == 0xF
        && crate::instructions::spec_second_nibble(0xF31E) == 3
        && crate::instructions::spec_last_byte(0xF31E) == 0x1E) by (bit_vector);
    assert(crate::instructions::spec_first_nibble(0xF329) == 0xF
        && crate::instructions::spec_second_nibble(0xF329) == 3
        && crate::instructions::spec_last_byte(0xF329) == 0x29
        && crate::instructions::spec_first_nibble(0xF333) == 0xF
        && crate::instructions::spec_second_nibble(0xF333) == 3
        && crate::instructions::spec_last_byte(0xF333) == 0x33
        && crate::instructions::spec_first_nibble(0xF355) == 0xF
        && crate::instructions::spec_second_nibble(0xF355) == 3
        && crate::instructions::spec_last_byte(0xF355) == 0x55
        && crate::instructions::spec_first_nibble(0xF365) == 0xF
        && crate::instructions::spec_second_nibble(0xF365) == 3
        && crate::instructions::spec_last_byte(0xF365) == 0x65) by (bit_vector);
}

/// A call pushes the already-incremented return address — the address of the
/// instruction after the call — before transferring control, and the
/// matching return pops it and resumes there with no further increment.
pub proof fn lemma_call_return_round_trip(m: CpuModel, address: u16, rnd1: u8, rnd2: u8)
    requires
        model_wf(m),
        m.sp < 16,
    ensures
        exec_model(m, (Instruction::Call { address }), rnd1) is Ok,
        ({
            let after_call = exec_model(m, (Instruction::Call { address }), rnd1)->Ok_0;
            &&& after_call.pc == address
            &&& after_call.sp == m.sp + 1
            &&& after_call.stack[m.sp as int] == bump(m.pc)
            &&& exec_model(after_call, Instruction::Return, rnd2) == Ok::<CpuModel, Fault>(
                (CpuModel {
                    sp: m.sp,
                    pc: bump(m.pc),
                    stack: m.stack.update(m.sp as int, bump(m.pc)),
                    ..m
                }),
            )
        }),
{
}

/// The wait-for-key operation is a polling re-check, not a suspension: while
/// no key has been pressed, a cycle at a wait-for-key instruction leaves the
/// whole machine exactly as it was — in particular the program counter does
/// not advance, however often the cycle is re-run. Once a key has been
/// pressed, the next cycle stores its value in the target register and
/// advances the counter exactly once.
pub proof fn lemma_wait_for_key(m: CpuModel, register: u8, rnd: u8)
    requires
        model_wf(m),
        register < 16,
        fetch_model(m) is Ok,
        spec_decode(fetch_model(m)->Ok_0) == (Instruction::WaitForKeyPressAndStoreValue {
            register,
        }),
    ensures
        m.last_key is None ==> step_model(m, rnd) == Ok::<CpuModel, Fault>(m),
        m.last_key is Some ==> step_model(m, rnd) == Ok::<CpuModel, Fault>(
            (CpuModel {
                regs: m.regs.update(register as int, m.last_key->Some_0),
                pc: bump(m.pc),
                ..m
            }),
        ),
{
}

/// A fetch whose two-byte read would run past the end of memory surfaces as
/// an `OutOfBounds` fault before anything is decoded or applied, so the
/// failing cycle performs no register or memory mutation at all.
pub proof fn lemma_out_of_bounds_fetch(m: CpuModel, rnd: u8)
    requires
        m.pc + 1 >= MEMORY_SIZE,
    ensures
        step_model(m, rnd) == Err::<CpuModel, Fault>(Fault::OutOfBounds),
{
}

} // verus!
