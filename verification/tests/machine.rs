use chip8::cpu::CPU;
use chip8::errors::Fault;
use chip8::instructions::Instruction;
use chip8::memory::Memory;
use chip8::sound::Sound;

#[test]
fn test_add_immediate_preserves_flag() {
    let mut cpu = CPU::mock();
    cpu.VF = 0x7;
    cpu.execute_opcode(Instruction::LoadRegister { register: 2, value: 0xFB }).unwrap();
    cpu.execute_opcode(Instruction::AddToRegister { register: 2, value: 0x10 }).unwrap();
    assert_eq!(cpu.registers[2], 0x0B);
    assert_eq!(cpu.VF, 0x7);
}

#[test]
fn test_subtract_equal_values_no_borrow() {
    let mut cpu = CPU::mock();
    cpu.execute_opcode(Instruction::LoadRegister { register: 4, value: 0x42 }).unwrap();
    cpu.execute_opcode(Instruction::LoadRegister { register: 5, value: 0x42 }).unwrap();
    cpu.execute_opcode(Instruction::SubtractRegisterFromRegister {
        destination_register: 4,
        source_register: 5,
    })
    .unwrap();
    assert_eq!(cpu.registers[4], 0x00);
    assert_eq!(cpu.VF, 1);
}

#[test]
fn test_wait_for_key_blocks_until_press() {
    let mut cpu = CPU::mock();
    let program: Vec<u8> = vec![0xF3, 0x0A];
    cpu.bus.memory.load_data(&0x200, &program).unwrap();
    cpu.set_pc(&0x200);
    cpu.step().unwrap();
    assert_eq!(cpu.PC, 0x200);
    cpu.step().unwrap();
    assert_eq!(cpu.PC, 0x200);
    cpu.bus.input.press_key(5);
    cpu.step().unwrap();
    assert_eq!(cpu.registers[3], 5);
    assert_eq!(cpu.PC, 0x202);
}

#[test]
fn test_out_of_bounds_fetch_is_reported() {
    let mut cpu = CPU::mock();
    cpu.registers[0] = 0x11;
    cpu.set_pc(&0xFFF);
    assert_eq!(cpu.step(), Err(Fault::OutOfBounds));
    assert_eq!(cpu.PC, 0xFFF);
    assert_eq!(cpu.registers[0], 0x11);
    assert_eq!(cpu.SP, 0);
}

#[test]
fn test_stack_underflow_on_return() {
    let mut cpu = CPU::mock();
    assert_eq!(cpu.execute_opcode(Instruction::Return), Err(Fault::StackUnderflow));
    assert_eq!(cpu.PC, 0);
    assert_eq!(cpu.SP, 0);
}

#[test]
fn test_stack_overflow_on_seventeenth_call() {
    let mut cpu = CPU::mock();
    let mut i: usize = 0;
    while i < 16 {
        cpu.execute_opcode(Instruction::Call { address: 0x300 }).unwrap();
        i += 1;
    }
    assert_eq!(cpu.SP, 16);
    assert_eq!(cpu.execute_opcode(Instruction::Call { address: 0x300 }), Err(Fault::StackOverflow));
    assert_eq!(cpu.SP, 16);
}

#[test]
fn test_memory_out_of_bounds_access() {
    let mut memory = Memory::new();
    assert_eq!(memory.read(&4096), Err(Fault::OutOfBounds));
    assert_eq!(memory.write(&4096, &1), Err(Fault::OutOfBounds));
    assert_eq!(memory.read_instruction(&4095), Err(Fault::OutOfBounds));
    assert_eq!(memory.read(&4095), Ok(0));
}

#[test]
fn test_load_data_past_end_rejected() {
    let mut memory = Memory::new();
    let data: Vec<u8> = vec![1, 2, 3, 4];
    assert_eq!(memory.load_data(&4094, &data), Err(Fault::OutOfBounds));
    assert_eq!(memory.read(&4094).unwrap(), 0);
    assert_eq!(memory.read(&4095).unwrap(), 0);
}

#[test]
fn test_load_fonts_idempotent() {
    let mut memory = Memory::new();
    memory.load_fonts();
    memory.load_fonts();
    assert_eq!(memory.read(&0).unwrap(), 0xF0);
    assert_eq!(memory.read(&79).unwrap(), 0x80);
    assert_eq!(memory.read(&80).unwrap(), 0x00);
}

#[test]
fn test_step_executes_program() {
    let mut cpu = CPU::mock();
    let program: Vec<u8> = vec![0x63, 0x55, 0x73, 0x01];
    cpu.bus.memory.load_data(&0x200, &program).unwrap();
    cpu.set_pc(&0x200);
    cpu.step().unwrap();
    assert_eq!(cpu.registers[3], 0x55);
    assert_eq!(cpu.PC, 0x202);
    cpu.step().unwrap();
    assert_eq!(cpu.registers[3], 0x56);
    assert_eq!(cpu.PC, 0x204);
}

#[test]
fn test_draw_sprite_sets_pixels_and_flag() {
    let mut cpu = CPU::mock();
    let sprite: Vec<u8> = vec![0x80];
    cpu.bus.memory.load_data(&0x300, &sprite).unwrap();
    cpu.execute_opcode(Instruction::SetAddressRegister { value: 0x300 }).unwrap();
    cpu.execute_opcode(Instruction::DisplaySpriteAtLocation { x: 0, y: 1, n: 1 }).unwrap();
    assert!(cpu.bus.graphics.get_pixel(0, 0));
    assert_eq!(cpu.VF, 0);
    cpu.execute_opcode(Instruction::DisplaySpriteAtLocation { x: 0, y: 1, n: 1 }).unwrap();
    assert!(!cpu.bus.graphics.get_pixel(0, 0));
    assert_eq!(cpu.VF, 1);
}

#[test]
fn test_draw_sprite_wraps_around() {
    let mut cpu = CPU::mock();
    let sprite: Vec<u8> = vec![0xFF];
    cpu.bus.memory.load_data(&0x300, &sprite).unwrap();
    cpu.execute_opcode(Instruction::SetAddressRegister { value: 0x300 }).unwrap();
    cpu.execute_opcode(Instruction::LoadRegister { register: 1, value: 62 }).unwrap();
    cpu.execute_opcode(Instruction::LoadRegister { register: 2, value: 31 }).unwrap();
    cpu.execute_opcode(Instruction::DisplaySpriteAtLocation { x: 1, y: 2, n: 1 }).unwrap();
    assert!(cpu.bus.graphics.get_pixel(62, 31));
    assert!(cpu.bus.graphics.get_pixel(63, 31));
    assert!(cpu.bus.graphics.get_pixel(0, 31));
    assert!(cpu.bus.graphics.get_pixel(5, 31));
    assert!(!cpu.bus.graphics.get_pixel(6, 31));
    assert!(!cpu.bus.graphics.get_pixel(61, 31));
}

#[test]
fn test_draw_sprite_past_memory_end_rejected() {
    let mut cpu = CPU::mock();
    cpu.execute_opcode(Instruction::SetAddressRegister { value: 0xFFE }).unwrap();
    let pc = cpu.PC;
    assert_eq!(
        cpu.execute_opcode(Instruction::DisplaySpriteAtLocation { x: 0, y: 0, n: 5 }),
        Err(Fault::OutOfBounds)
    );
    assert_eq!(cpu.PC, pc);
}

#[test]
fn test_clear_display() {
    let mut cpu = CPU::mock();
    let sprite: Vec<u8> = vec![0x80];
    cpu.bus.memory.load_data(&0x300, &sprite).unwrap();
    cpu.execute_opcode(Instruction::SetAddressRegister { value: 0x300 }).unwrap();
    cpu.execute_opcode(Instruction::DisplaySpriteAtLocation { x: 0, y: 1, n: 1 }).unwrap();
    assert!(cpu.bus.graphics.get_pixel(0, 0));
    let pc = cpu.PC;
    cpu.execute_opcode(Instruction::ClearDisplay).unwrap();
    assert!(!cpu.bus.graphics.get_pixel(0, 0));
    assert_eq!(cpu.PC, pc + 2);
}

#[test]
fn test_bcd_store() {
    let mut cpu = CPU::mock();
    cpu.execute_opcode(Instruction::LoadRegister { register: 7, value: 234 }).unwrap();
    cpu.execute_opcode(Instruction::SetAddressRegister { value: 0x320 }).unwrap();
    cpu.execute_opcode(Instruction::StoreBCDValueOfRegisterToI { register: 7 }).unwrap();
    assert_eq!(cpu.bus.memory.read(&0x320).unwrap(), 2);
    assert_eq!(cpu.bus.memory.read(&0x321).unwrap(), 3);
    assert_eq!(cpu.bus.memory.read(&0x322).unwrap(), 4);
}

#[test]
fn test_store_and_read_registers_bulk() {
    let mut cpu = CPU::mock();
    cpu.registers[0] = 0xAA;
    cpu.registers[1] = 0xBB;
    cpu.registers[2] = 0xCC;
    cpu.registers[3] = 0xDD;
    cpu.execute_opcode(Instruction::SetAddressRegister { value: 0x340 }).unwrap();
    cpu.execute_opcode(Instruction::StoreNRegistersToMemory { n: 3 }).unwrap();
    assert_eq!(cpu.I, 0x340);
    assert_eq!(cpu.bus.memory.read(&0x340).unwrap(), 0xAA);
    assert_eq!(cpu.bus.memory.read(&0x343).unwrap(), 0xDD);
    assert_eq!(cpu.bus.memory.read(&0x344).unwrap(), 0x00);
    cpu.registers[0] = 0;
    cpu.registers[1] = 0;
    cpu.registers[2] = 0;
    cpu.registers[3] = 0;
    cpu.execute_opcode(Instruction::ReadNRegistersFromMemory { n: 3 }).unwrap();
    assert_eq!(cpu.I, 0x340);
    assert_eq!(cpu.registers[0], 0xAA);
    assert_eq!(cpu.registers[1], 0xBB);
    assert_eq!(cpu.registers[2], 0xCC);
    assert_eq!(cpu.registers[3], 0xDD);
}

#[test]
fn test_bulk_store_past_end_rejected() {
    let mut cpu = CPU::mock();
    cpu.execute_opcode(Instruction::SetAddressRegister { value: 0xFFE }).unwrap();
    assert_eq!(
        cpu.execute_opcode(Instruction::StoreNRegistersToMemory { n: 3 }),
        Err(Fault::OutOfBounds)
    );
    assert_eq!(
        cpu.execute_opcode(Instruction::ReadNRegistersFromMemory { n: 3 }),
        Err(Fault::OutOfBounds)
    );
}

#[test]
fn test_font_address_execute() {
    let mut cpu = CPU::mock();
    cpu.execute_opcode(Instruction::SetIToFontAddress { digit: 0xA }).unwrap();
    assert_eq!(cpu.I, 50);
    assert_eq!(cpu.bus.memory.read(&50).unwrap(), 0xF0);
}

#[test]
fn test_random_mask_zero() {
    let mut cpu = CPU::mock();
    cpu.registers[2] = 0x77;
    cpu.execute_opcode(Instruction::GenerateRandomData { register: 2, value: 0 }).unwrap();
    assert_eq!(cpu.registers[2], 0);
}

#[test]
fn test_random_injected() {
    let mut cpu = CPU::mock();
    cpu.execute_opcode_with_random(
        Instruction::GenerateRandomData { register: 2, value: 0x0F },
        0xAB,
    )
    .unwrap();
    assert_eq!(cpu.registers[2], 0x0B);
}

#[test]
fn test_timer_transfers() {
    let mut cpu = CPU::mock();
    cpu.execute_opcode(Instruction::LoadRegister { register: 5, value: 0x44 }).unwrap();
    cpu.execute_opcode(Instruction::SetDelayTimerToRegister { register: 5 }).unwrap();
    assert_eq!(cpu.DT, 0x44);
    cpu.execute_opcode(Instruction::SetSoundTimerToRegister { register: 5 }).unwrap();
    assert_eq!(cpu.ST, 0x44);
    cpu.execute_opcode(Instruction::SetRegisterToDelayTimer { register: 6 }).unwrap();
    assert_eq!(cpu.registers[6], 0x44);
}

#[test]
fn test_add_to_address_register_wraps() {
    let mut cpu = CPU::mock();
    cpu.execute_opcode(Instruction::SetAddressRegister { value: 0xFFF }).unwrap();
    cpu.execute_opcode(Instruction::LoadRegister { register: 1, value: 0x10 }).unwrap();
    cpu.execute_opcode(Instruction::AddRegisterToRegisterI { register: 1 }).unwrap();
    assert_eq!(cpu.I, 0x100F);
    assert_eq!(cpu.VF, 0);
    cpu.I = 0xFFFF;
    cpu.execute_opcode(Instruction::AddRegisterToRegisterI { register: 1 }).unwrap();
    assert_eq!(cpu.I, 0x000F);
}

#[test]
fn test_key_skips() {
    let mut cpu = CPU::mock();
    cpu.registers[2] = 5;
    cpu.execute_opcode(Instruction::SkipIfPressedKeyEqualToRegister { register: 2 }).unwrap();
    assert_eq!(cpu.PC, 0x002);
    cpu.bus.input.press_key(5);
    cpu.execute_opcode(Instruction::SkipIfPressedKeyEqualToRegister { register: 2 }).unwrap();
    assert_eq!(cpu.PC, 0x006);
    cpu.execute_opcode(Instruction::DontSkipIfPressedKeyEqualToRegister { register: 2 })
        .unwrap();
    assert_eq!(cpu.PC, 0x008);
    cpu.bus.input.release_key(5);
    cpu.execute_opcode(Instruction::DontSkipIfPressedKeyEqualToRegister { register: 2 })
        .unwrap();
    assert_eq!(cpu.PC, 0x00C);
}

#[test]
fn test_input_ignores_out_of_range_keys() {
    let mut cpu = CPU::mock();
    cpu.bus.input.press_key(20);
    assert_eq!(cpu.bus.input.last_pressed_key(), None);
    assert!(!cpu.bus.input.is_key_down(20));
    cpu.bus.input.press_key(7);
    assert_eq!(cpu.bus.input.last_pressed_key(), Some(7));
    assert!(cpu.bus.input.is_key_down(7));
    cpu.bus.input.clear_last_key();
    assert_eq!(cpu.bus.input.last_pressed_key(), None);
    assert!(cpu.bus.input.is_key_down(7));
}

#[test]
fn test_sound_tone_flag() {
    let mut sound = Sound::new();
    assert!(!sound.is_tone_on());
    sound.set_tone(true);
    assert!(sound.is_tone_on());
    sound.set_tone(false);
    assert!(!sound.is_tone_on());
}

#[test]
fn test_program_counter_wraps_at_top() {
    let mut cpu = CPU::mock();
    cpu.set_pc(&0xFFFE);
    cpu.execute_opcode(Instruction::NOP).unwrap();
    assert_eq!(cpu.PC, 0x0000);
}

#[test]
fn test_bus_new_preloads_fonts() {
    let bus = chip8::bus::Bus::new();
    assert_eq!(bus.memory.read(&0).unwrap(), 0xF0);
    assert_eq!(bus.memory.read(&80).unwrap(), 0x00);
    assert_eq!(bus.input.last_pressed_key(), None);
}

#[test]
fn test_graphics_draw_and_clear() {
    let mut g = chip8::graphics::Graphics::new();
    let rows: Vec<u8> = vec![0xC0, 0x80];
    let collision = g.draw_sprite(10, 4, &rows);
    assert!(!collision);
    assert!(g.get_pixel(10, 4));
    assert!(g.get_pixel(11, 4));
    assert!(g.get_pixel(10, 5));
    assert!(!g.get_pixel(11, 5));
    let rows2: Vec<u8> = vec![0x40];
    let collision2 = g.draw_sprite(10, 4, &rows2);
    assert!(collision2);
    assert!(!g.get_pixel(11, 4));
    assert!(g.get_pixel(10, 4));
    g.clear();
    assert!(!g.get_pixel(10, 4));
    assert!(!g.get_pixel(10, 5));
}
