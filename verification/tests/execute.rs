use chip8::cpu::CPU;
use chip8::instructions::Instruction;

fn get_cpu() -> CPU {
    let mut cpu = CPU::mock();
    let data: Vec<u8> = vec![0xDE, 0xAD, 0xBE, 0xEF];
    cpu.bus.memory.load_data(&0x200, &data).unwrap();
    cpu
}

#[test]
fn test_fetch_opcode() {
    let mut cpu: CPU = get_cpu();
    cpu.set_pc(&0x200);
    assert_eq!(cpu.fetch_opcode().unwrap(), 0xDEAD);
    assert_ne!(cpu.fetch_opcode().unwrap(), 0xBEEF);
    cpu.inc_pc();
    assert_eq!(cpu.fetch_opcode().unwrap(), 0xBEEF);
}

#[test]
fn test_fetch_decode() {
    let mut cpu: CPU = get_cpu();
    cpu.set_pc(&0x200);
    let opcode: u16 = cpu.fetch_opcode().unwrap();
    let ins: Instruction = cpu.decode(opcode);
    assert_eq!(ins, Instruction::DisplaySpriteAtLocation { x: 0xE, y: 0xA, n: 0xD });
}

fn test_pc_inc(init: u16, cpu: CPU) {
    assert_eq!(cpu.PC, init + 2);
}

#[test]
fn cpu_test_nop() {
    let mut cpu = get_cpu();
    cpu.execute_opcode(Instruction::NOP).unwrap();
    test_pc_inc(0, cpu);
}

#[test]
fn test_skip_invalid_instruction() {
    let mut cpu = get_cpu();
    cpu.execute_opcode(Instruction::InvalidInstruction).unwrap();
    test_pc_inc(0, cpu);
}

#[test]
fn test_jump() {
    let mut cpu = get_cpu();
    cpu.execute_opcode(Instruction::Jump { address: 0xFFF }).unwrap();
    assert_eq!(cpu.PC, 0xFFF);
}

#[test]
fn cpu_test_call() {
    let mut cpu = get_cpu();
    cpu.set_pc(&0x0E0);
    cpu.execute_opcode(Instruction::Call { address: 0x0FF }).unwrap();
    assert_eq!(cpu.SP, 1);
    assert_eq!(cpu.stack[0], 0x00E2);
    assert_eq!(cpu.PC, 0x0FF);
}

#[test]
fn cpu_test_return() {
    let mut cpu = get_cpu();
    cpu.set_pc(&0x0E0);
    cpu.execute_opcode(Instruction::Call { address: 0x0FF }).unwrap();
    cpu.execute_opcode(Instruction::Call { address: 0x0DD }).unwrap();
    cpu.execute_opcode(Instruction::Return).unwrap();
    assert_eq!(cpu.SP, 1);
    assert_eq!(cpu.PC, 0x101);
    assert_eq!(cpu.stack[0], 0x0E2);
}

#[test]
fn cpu_test_skip_if_equal() {
    let mut cpu = get_cpu();
    cpu.registers[5] = 0x05;
    cpu.execute_opcode(Instruction::SkipIfEqual { register: 5, value: 0x2 }).unwrap();
    assert_eq!(cpu.PC, 0x02);
    cpu.execute_opcode(Instruction::SkipIfEqual { register: 5, value: 0x05 }).unwrap();
    assert_eq!(cpu.PC, 0x06);
}

#[test]
fn cpu_test_skip_if_not_equal() {
    let mut cpu = get_cpu();
    cpu.registers[5] = 0x05;
    cpu.execute_opcode(Instruction::SkipIfNotEqual { register: 5, value: 0x2 }).unwrap();
    assert_eq!(cpu.PC, 0x04);
    cpu.execute_opcode(Instruction::SkipIfNotEqual { register: 5, value: 0x05 }).unwrap();
    assert_eq!(cpu.PC, 0x06);
}

#[test]
fn test_skip_if_registers_equal() {
    let mut cpu = get_cpu();
    cpu.registers[5] = 0x05;
    cpu.registers[4] = 0x04;
    cpu.registers[3] = 0x05;
    cpu.execute_opcode(Instruction::SkipIfRegistersEqual { register_1: 5, register_2: 4 })
        .unwrap();
    assert_eq!(cpu.PC, 0x02);
    cpu.execute_opcode(Instruction::SkipIfRegistersEqual { register_1: 5, register_2: 3 })
        .unwrap();
    assert_eq!(cpu.PC, 0x06);
}

#[test]
fn cpu_test_load_register() {
    let mut cpu = get_cpu();
    cpu.execute_opcode(Instruction::LoadRegister { register: 5, value: 0xBB }).unwrap();
    assert_eq!(cpu.registers[5], 0xBB);
}

#[test]
fn test_add_to_register() {
    let mut cpu = get_cpu();
    cpu.execute_opcode(Instruction::LoadRegister { register: 5, value: 0xB }).unwrap();
    cpu.execute_opcode(Instruction::AddToRegister { register: 5, value: 0xB0 }).unwrap();
    assert_eq!(cpu.registers[5], 0xBB);
}

#[test]
fn test_set_reg_to_reg() {
    let mut cpu = get_cpu();
    cpu.execute_opcode(Instruction::LoadRegister { register: 5, value: 0xBB }).unwrap();
    cpu.execute_opcode(Instruction::SetRegisterToRegister {
        destination_register: 4,
        source_register: 5,
    })
    .unwrap();
    assert_eq!(cpu.registers[4], 0xBB);
}

#[test]
fn test_or_reg_reg() {
    let mut cpu = get_cpu();
    cpu.execute_opcode(Instruction::LoadRegister { register: 5, value: 0xB1 }).unwrap();
    cpu.execute_opcode(Instruction::LoadRegister { register: 4, value: 0x1B }).unwrap();
    cpu.execute_opcode(Instruction::OrRegisterToRegister {
        destination_register: 4,
        source_register: 5,
    })
    .unwrap();
    assert_eq!(cpu.registers[4], 0xBB);
}

#[test]
fn test_and_reg_reg() {
    let mut cpu = get_cpu();
    cpu.execute_opcode(Instruction::LoadRegister { register: 5, value: 0xB1 }).unwrap();
    cpu.execute_opcode(Instruction::LoadRegister { register: 4, value: 0x1B }).unwrap();
    cpu.execute_opcode(Instruction::AndRegisterToRegister {
        destination_register: 4,
        source_register: 5,
    })
    .unwrap();
    assert_eq!(cpu.registers[4], 0x11);
}

#[test]
fn test_xor_reg_reg() {
    let mut cpu = get_cpu();
    cpu.execute_opcode(Instruction::LoadRegister { register: 5, value: 0xB1 }).unwrap();
    cpu.execute_opcode(Instruction::LoadRegister { register: 4, value: 0x1B }).unwrap();
    cpu.execute_opcode(Instruction::XorRegisterToRegister {
        destination_register: 4,
        source_register: 5,
    })
    .unwrap();
    assert_eq!(cpu.registers[4], 0xAA);
}

#[test]
fn test_add_reg_reg() {
    let mut cpu = get_cpu();
    cpu.execute_opcode(Instruction::LoadRegister { register: 5, value: 0xB0 }).unwrap();
    cpu.execute_opcode(Instruction::LoadRegister { register: 4, value: 0x0B }).unwrap();
    cpu.execute_opcode(Instruction::AddRegisterToRegister {
        destination_register: 4,
        source_register: 5,
    })
    .unwrap();
    assert_eq!(cpu.registers[4], 0xBB);
    assert_eq!(cpu.VF, 0);
    cpu.execute_opcode(Instruction::AddRegisterToRegister {
        destination_register: 4,
        source_register: 5,
    })
    .unwrap();
    assert_eq!(cpu.VF, 1);
}

#[test]
fn test_sub_reg_reg() {
    let mut cpu = get_cpu();
    cpu.execute_opcode(Instruction::LoadRegister { register: 5, value: 0xB0 }).unwrap();
    cpu.execute_opcode(Instruction::LoadRegister { register: 4, value: 0xBB }).unwrap();
    cpu.execute_opcode(Instruction::SubtractRegisterFromRegister {
        destination_register: 4,
        source_register: 5,
    })
    .unwrap();
    assert_eq!(cpu.registers[4], 0x0B);
    assert_eq!(cpu.VF, 1);
    cpu.execute_opcode(Instruction::SubtractRegisterFromRegister {
        destination_register: 4,
        source_register: 5,
    })
    .unwrap();
    assert_eq!(cpu.VF, 0)
}

#[test]
fn test_sub_reg_reg_inv() {
    let mut cpu = get_cpu();
    cpu.execute_opcode(Instruction::LoadRegister { register: 5, value: 0xBB }).unwrap();
    cpu.execute_opcode(Instruction::LoadRegister { register: 4, value: 0xB0 }).unwrap();
    cpu.execute_opcode(Instruction::SubtractIntoDifferentRegister {
        destination_register: 4,
        source_register: 5,
    })
    .unwrap();
    assert_eq!(cpu.registers[4], 0x0B);
    assert_eq!(cpu.VF, 1);
    cpu.execute_opcode(Instruction::SubtractIntoDifferentRegister {
        destination_register: 5,
        source_register: 4,
    })
    .unwrap();
    assert_eq!(cpu.VF, 0)
}

#[test]
fn cpu_test_shr() {
    let mut cpu = get_cpu();
    cpu.execute_opcode(Instruction::LoadRegister { register: 5, value: 0x22 }).unwrap();
    cpu.execute_opcode(Instruction::ShiftRight { destination_register: 4, source_register: 5 })
        .unwrap();
    assert_eq!(cpu.registers[4], 0x11);
    assert_eq!(cpu.VF, 0);
    cpu.execute_opcode(Instruction::ShiftRight { destination_register: 4, source_register: 4 })
        .unwrap();
    assert_eq!(cpu.VF, 1);
    assert_eq!(cpu.registers[4], 0x08);
}

#[test]
fn cpu_test_shl() {
    let mut cpu = get_cpu();
    cpu.execute_opcode(Instruction::LoadRegister { register: 5, value: 0x88 }).unwrap();
    cpu.execute_opcode(Instruction::ShiftLeft { destination_register: 4, source_register: 5 })
        .unwrap();
    assert_eq!(cpu.registers[4], 0x10);
    assert_eq!(cpu.VF, 1);
    cpu.execute_opcode(Instruction::ShiftLeft { destination_register: 4, source_register: 4 })
        .unwrap();
    assert_eq!(cpu.VF, 0);
    assert_eq!(cpu.registers[4], 0x20);
}

#[test]
fn test_skip_if_registers_not_equal() {
    let mut cpu = get_cpu();
    cpu.registers[5] = 0x05;
    cpu.registers[4] = 0x04;
    cpu.registers[3] = 0x05;
    cpu.execute_opcode(Instruction::SkipIfRegistersNotEqual { register_1: 5, register_2: 4 })
        .unwrap();
    assert_eq!(cpu.PC, 0x04);
    cpu.execute_opcode(Instruction::SkipIfRegistersNotEqual { register_1: 5, register_2: 3 })
        .unwrap();
    assert_eq!(cpu.PC, 0x06);
}

#[test]
fn cpu_test_set_address_register() {
    let mut cpu = get_cpu();
    cpu.execute_opcode(Instruction::SetAddressRegister { value: 0xFFB }).unwrap();
    assert_eq!(cpu.I, 0xFFB)
}

#[test]
fn test_jump_to_location_and_offset() {
    let mut cpu = get_cpu();
    cpu.execute_opcode(Instruction::LoadRegister { register: 0, value: 0x55 }).unwrap();
    cpu.execute_opcode(Instruction::JumpToLocationAndOffset0 { address: 0xCBAB }).unwrap();
    assert_eq!(cpu.PC, 0xCC00);
}
