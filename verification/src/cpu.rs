use vstd::prelude::*;

use crate::bus::Bus;
use crate::errors::Fault;
use crate::instructions::decoded_wf;
use crate::instructions::spec_decode;
use crate::instructions::Instruction;
use crate::memory::MEMORY_SIZE;
use crate::model::bump;
use crate::model::execute_rel;
use crate::model::fetch_model;
use crate::model::initial_model;
use crate::model::load_seq;
use crate::model::step_rel;
use crate::model::store_seq;
use crate::model::CpuModel;

verus! {

/// Number of general-purpose registers.
pub const REGISTER_COUNT: usize = 16;

/// Capacity of the call stack.
pub const STACK_SIZE: usize = 16;

/// Relies on rand::random: draws a value from the thread-local generator.
/// Nothing can be promised of a random value, so no clause is given; every
/// contract downstream holds whatever byte comes back.
pub assume_specification<T>[ rand::random::<T> ]() -> (r: T)
    where
        rand::distributions::Standard: rand::distributions::Distribution<T>,
;

/// The execution core: register file, call stack, special registers, the two
/// countdown timers, and the bus it reaches memory and peripheral state
/// through. The timers are plain mutable state, decremented by the embedding
/// application at its own cadence.
#[allow(non_snake_case)]
pub struct CPU {
    /// 16 general-purpose 8-bit registers.
    pub registers: Vec<u8>,
    /// 16 levels of call stack holding return addresses.
    pub stack: Vec<u16>,
    /// Address register, used to point into memory.
    pub I: u16,
    /// Flag register, written only as a side effect of arithmetic, shift and
    /// draw operations.
    pub VF: u8,
    /// Program counter.
    pub PC: u16,
    /// Stack pointer: index of the next free call-stack slot.
    pub SP: usize,
    /// Delay timer.
    pub DT: u8,
    /// Sound timer; a tone is due while it is above zero.
    pub ST: u8,
    pub bus: Bus,
}

impl View for CPU {
    type V = CpuModel;

    open spec fn view(&self) -> CpuModel {
        CpuModel {
            regs: self.registers@,
            stack: self.stack@,
            i: self.I,
            vf: self.VF,
            pc: self.PC,
            sp: self.SP as nat,
            dt: self.DT,
            st: self.ST,
            mem: self.bus.memory@,
            screen: self.bus.graphics@,
            keys: self.bus.input@.keys,
            last_key: self.bus.input@.last_key,
        }
    }
}

impl CPU {
    pub open spec fn wf(&self) -> bool {
        &&& self.registers@.len() == REGISTER_COUNT
        &&& self.stack@.len() == STACK_SIZE
        &&& self.SP <= STACK_SIZE
        &&& self.bus.wf()
    }

    /// A zeroed core on the given bus.
    pub fn new(bus: Bus) -> (c: CPU)
        requires
            bus.wf(),
        ensures
            c.wf(),
            c.bus == bus,
            c@.i == 0 && c@.vf == 0 && c@.pc == 0 && c@.sp == 0 && c@.dt == 0 && c@.st == 0,
            forall|j: int| 0 <= j < 16 ==> c@.regs[j] == 0u8,
            forall|j: int| 0 <= j < 16 ==> c@.stack[j] == 0u16,
    {
        let mut registers: Vec<u8> = Vec::new();
        let mut stack: Vec<u16> = Vec::new();
        let mut i: usize = 0;
        while i < REGISTER_COUNT
            invariant
                i <= REGISTER_COUNT,
                registers@.len() == i,
                stack@.len() == i,
                forall|k: int| 0 <= k < i ==> registers@[k] == 0u8,
                forall|k: int| 0 <= k < i ==> stack@[k] == 0u16,
            decreases REGISTER_COUNT - i,
        {
            registers.push(0u8);
            stack.push(0u16);
            i = i + 1;
        }
        CPU { registers, stack, I: 0, VF: 0, PC: 0, SP: 0, DT: 0, ST: 0, bus }
    }

    /// A zeroed core on a freshly constructed bus.
    pub fn mock() -> (c: CPU)
        ensures
            c.wf(),
            initial_model(c@),
            !c.bus.sound.tone_on,
    {
        let bus = Bus::mock();
        CPU::new(bus)
    }

    /// The instruction word at the program counter, big-endian.
    pub fn fetch_opcode(&mut self) -> (r: Result<u16, Fault>)
        requires
            old(self).wf(),
        ensures
            *final(self) == *old(self),
            final(self).wf(),
            r == fetch_model(old(self)@),
    {
        self.bus.memory.read_instruction(&self.PC)
    }

    /// Decode a fetched word; total, never failing.
    pub fn decode(&self, opcode: u16) -> (r: Instruction)
        ensures
            r == spec_decode(opcode),
            decoded_wf(r),
    {
        Instruction::fetch_opcode(&opcode)
    }

    /// Advance the program counter by one instruction width, modulo 16 bits.
    pub fn inc_pc(&mut self)
        ensures
            *final(self) == (CPU { PC: bump(old(self).PC), ..*old(self) }),
    {
        self.PC = ((self.PC as u32 + 2) % 0x10000) as u16;
    }

    pub fn set_pc(&mut self, pc: &u16)
        ensures
            *final(self) == (CPU { PC: *pc, ..*old(self) }),
    {
        self.PC = *pc;
    }

    pub fn get_register(&self, register: u8) -> (r: u8)
        requires
            self.wf(),
            register < 16,
        ensures
            r == self@.regs[register as int],
    {
        self.registers[register as usize]
    }

    pub fn set_register(&mut self, register: u8, value: u8)
        requires
            old(self).wf(),
            register < 16,
        ensures
            final(self).wf(),
            final(self)@ == (CpuModel {
                regs: old(self)@.regs.update(register as int, value),
                ..old(self)@
            }),
            final(self).bus == old(self).bus,
    {
        self.registers.set(register as usize, value);
    }

    /// Apply one decoded operation, drawing randomness from the process-wide
    /// generator where the operation calls for it. Faults abort the operation
    /// with the whole machine untouched.
    pub fn execute_opcode(&mut self, ins: Instruction) -> (r: Result<(), Fault>)
        requires
            old(self).wf(),
            decoded_wf(ins),
        ensures
            final(self).wf(),
            exists|rnd: u8| #[trigger] execute_rel(old(self)@, final(self)@, r, ins, rnd),
            r is Err ==> *final(self) == *old(self),
    {
        let rnd: u8 = rand::random::<u8>();
        let r = self.execute_opcode_with_random(ins, rnd);
        proof {
            assert(execute_rel(old(self)@, self@, r, ins, rnd));
        }
        r
    }

    /// As `execute_opcode`, with the random byte injected by the caller: the
    /// deterministic core of the cycle, and the seam a test can drive.
    pub fn execute_opcode_with_random(&mut self, ins: Instruction, rnd: u8) -> (r: Result<
        (),
        Fault,
    >)
        requires
            old(self).wf(),
            decoded_wf(ins),
        ensures
            final(self).wf(),
            execute_rel(old(self)@, final(self)@, r, ins, rnd),
            r is Err ==> *final(self) == *old(self),
    {
        match ins {
            Instruction::NOP
            | Instruction::InvalidInstruction
            | Instruction::ClearDisplay
            | Instruction::Return
            | Instruction::Jump { .. }
            | Instruction::Call { .. }
            | Instruction::SkipIfEqual { .. }
            | Instruction::SkipIfNotEqual { .. }
            | Instruction::SkipIfRegistersEqual { .. }
            | Instruction::SkipIfRegistersNotEqual { .. } => self.execute_control(ins, rnd),
            Instruction::LoadRegister { .. }
            | Instruction::AddToRegister { .. }
            | Instruction::SetRegisterToRegister { .. }
            | Instruction::OrRegisterToRegister { .. }
            | Instruction::AndRegisterToRegister { .. }
            | Instruction::XorRegisterToRegister { .. }
            | Instruction::AddRegisterToRegister { .. }
            | Instruction::SubtractRegisterFromRegister { .. }
            | Instruction::ShiftRight { .. }
            | Instruction::SubtractIntoDifferentRegister { .. }
            | Instruction::ShiftLeft { .. } => self.execute_alu(ins, rnd),
            Instruction::SetAddressRegister { .. }
            | Instruction::JumpToLocationAndOffset0 { .. }
            | Instruction::GenerateRandomData { .. }
            | Instruction::SkipIfPressedKeyEqualToRegister { .. }
            | Instruction::DontSkipIfPressedKeyEqualToRegister { .. }
            | Instruction::SetRegisterToDelayTimer { .. }
            | Instruction::WaitForKeyPressAndStoreValue { .. }
            | Instruction::SetDelayTimerToRegister { .. }
            | Instruction::SetSoundTimerToRegister { .. }
            | Instruction::AddRegisterToRegisterI { .. }
            | Instruction::SetIToFontAddress { .. } => self.execute_transfer(ins, rnd),
            Instruction::DisplaySpriteAtLocation { .. }
            | Instruction::StoreBCDValueOfRegisterToI { .. }
            | Instruction::StoreNRegistersToMemory { .. }
            | Instruction::ReadNRegistersFromMemory { .. } => self.execute_memory(ins, rnd),
        }
    }

    /// Control flow: no-ops, jumps, calls, returns and conditional skips.
    #[verifier::rlimit(100)]
    fn execute_control(&mut self, ins: Instruction, rnd: u8) -> (r: Result<(), Fault>)
        requires
            old(self).wf(),
            decoded_wf(ins),
            ins is NOP || ins is InvalidInstruction || ins is ClearDisplay || ins is Return
                || ins is Jump || ins is Call || ins is SkipIfEqual || ins is SkipIfNotEqual
                || ins is SkipIfRegistersEqual || ins is SkipIfRegistersNotEqual,
        ensures
            final(self).wf(),
            execute_rel(old(self)@, final(self)@, r, ins, rnd),
            r is Err ==> *final(self) == *old(self),
    {
        match ins {
            Instruction::NOP => {
                self.inc_pc();
                Ok(())
            },
            Instruction::InvalidInstruction => {
                self.inc_pc();
                Ok(())
            },
            Instruction::ClearDisplay => {
                self.bus.graphics.clear();
                self.inc_pc();
                Ok(())
            },
            Instruction::Return => {
                if self.SP == 0 {
                    return Err(Fault::StackUnderflow);
                }
                self.SP = self.SP - 1;
                self.PC = self.stack[self.SP];
                Ok(())
            },
            Instruction::Jump { address } => {
                self.PC = address;
                Ok(())
            },
            Instruction::Call { address } => {
                if self.SP >= STACK_SIZE {
                    return Err(Fault::StackOverflow);
                }
                self.inc_pc();
                self.stack.set(self.SP, self.PC);
                self.SP = self.SP + 1;
                self.PC = address;
                Ok(())
            },
            Instruction::SkipIfEqual { register, value } => {
                if self.get_register(register) == value {
                    self.inc_pc();
                }
                self.inc_pc();
                Ok(())
            },
            Instruction::SkipIfNotEqual { register, value } => {
                if self.get_register(register) != value {
                    self.inc_pc();
                }
                self.inc_pc();
                Ok(())
            },
            Instruction::SkipIfRegistersEqual { register_1, register_2 } => {
                if self.get_register(register_1) == self.get_register(register_2) {
                    self.inc_pc();
                }
                self.inc_pc();
                Ok(())
            },
            Instruction::SkipIfRegistersNotEqual { register_1, register_2 } => {
                if self.get_register(register_1) != self.get_register(register_2) {
                    self.inc_pc();
                }
                self.inc_pc();
                Ok(())
            },
            _ => {
                proof {
                    assert(false);
                }
                Err(Fault::OutOfBounds)
            },
        }
    }

    /// Register loads, bitwise operations, and the flag-writing arithmetic
    /// and shifts.
    #[verifier::rlimit(100)]
    fn execute_alu(&mut self, ins: Instruction, rnd: u8) -> (r: Result<(), Fault>)
        requires
            old(self).wf(),
            decoded_wf(ins),
            ins is LoadRegister || ins is AddToRegister || ins is SetRegisterToRegister
                || ins is OrRegisterToRegister || ins is AndRegisterToRegister
                || ins is XorRegisterToRegister || ins is AddRegisterToRegister
                || ins is SubtractRegisterFromRegister || ins is ShiftRight
                || ins is SubtractIntoDifferentRegister || ins is ShiftLeft,
        ensures
            final(self).wf(),
            execute_rel(old(self)@, final(self)@, r, ins, rnd),
            r is Err ==> *final(self) == *old(self),
    {
        match ins {
            Instruction::LoadRegister { register, value } => {
                self.set_register(register, value);
                self.inc_pc();
                Ok(())
            },
            Instruction::AddToRegister { register, value } => {
                let sum = (self.get_register(register) as u16) + (value as u16);
                self.set_register(register, (sum % 256) as u8);
                self.inc_pc();
                Ok(())
            },
            Instruction::SetRegisterToRegister { destination_register, source_register } => {
                let v = self.get_register(source_register);
                self.set_register(destination_register, v);
                self.inc_pc();
                Ok(())
            },
            Instruction::OrRegisterToRegister { destination_register, source_register } => {
                let v = self.get_register(destination_register) | self.get_register(
                    source_register,
                );
                self.set_register(destination_register, v);
                self.inc_pc();
                Ok(())
            },
            Instruction::AndRegisterToRegister { destination_register, source_register } => {
                let v = self.get_register(destination_register) & self.get_register(
                    source_register,
                );
                self.set_register(destination_register, v);
                self.inc_pc();
                Ok(())
            },
            Instruction::XorRegisterToRegister { destination_register, source_register } => {
                let v = self.get_register(destination_register) ^ self.get_register(
                    source_register,
                );
                self.set_register(destination_register, v);
                self.inc_pc();
                Ok(())
            },
            Instruction::AddRegisterToRegister { destination_register, source_register } => {
                let s = self.get_register(source_register) as u16;
                let d = self.get_register(destination_register) as u16;
                let sum = s + d;
                self.VF = if sum > 255 {
                    1
                } else {
                    0
                };
                self.set_register(destination_register, (sum % 256) as u8);
                self.inc_pc();
                Ok(())
            },
            Instruction::SubtractRegisterFromRegister { destination_register, source_register } => {
                let s = self.get_register(source_register) as u16;
                let d = self.get_register(destination_register) as u16;
                self.VF = if s <= d {
                    1
                } else {
                    0
                };
                self.set_register(destination_register, ((d + 256 - s) % 256) as u8);
                self.inc_pc();
                Ok(())
            },
            Instruction::ShiftRight { destination_register, source_register } => {
                let val = self.get_register(source_register);
                self.VF = val & 1u8;
                self.set_register(destination_register, val >> 1u8);
                self.inc_pc();
                Ok(())
            },
            Instruction::SubtractIntoDifferentRegister { source_register, destination_register } => {
                let s = self.get_register(source_register) as u16;
                let d = self.get_register(destination_register) as u16;
                self.VF = if d <= s {
                    1
                } else {
                    0
                };
                self.set_register(destination_register, ((s + 256 - d) % 256) as u8);
                self.inc_pc();
                Ok(())
            },
            Instruction::ShiftLeft { destination_register, source_register } => {
                let val = self.get_register(source_register);
                self.VF = (val >> 7u8) & 1u8;
                self.set_register(destination_register, val << 1u8);
                self.inc_pc();
                Ok(())
            },
            _ => {
                proof {
                    assert(false);
                }
                Err(Fault::OutOfBounds)
            },
        }
    }

    /// Address-register operations, the random-masked load, key polling and
    /// the timer transfers.
    #[verifier::rlimit(100)]
    fn execute_transfer(&mut self, ins: Instruction, rnd: u8) -> (r: Result<(), Fault>)
        requires
            old(self).wf(),
            decoded_wf(ins),
            ins is SetAddressRegister || ins is JumpToLocationAndOffset0
                || ins is GenerateRandomData || ins is SkipIfPressedKeyEqualToRegister
                || ins is DontSkipIfPressedKeyEqualToRegister || ins is SetRegisterToDelayTimer
                || ins is WaitForKeyPressAndStoreValue || ins is SetDelayTimerToRegister
                || ins is SetSoundTimerToRegister || ins is AddRegisterToRegisterI
                || ins is SetIToFontAddress,
        ensures
            final(self).wf(),
            execute_rel(old(self)@, final(self)@, r, ins, rnd),
            r is Err ==> *final(self) == *old(self),
    {
        match ins {
            Instruction::SetAddressRegister { value } => {
                self.I = value;
                self.inc_pc();
                Ok(())
            },
            Instruction::JumpToLocationAndOffset0 { address } => {
                let t = (address as u32) + (self.get_register(0) as u32);
                self.PC = (t % 0x10000) as u16;
                Ok(())
            },
            Instruction::GenerateRandomData { register, value } => {
                self.set_register(register, rnd & value);
                self.inc_pc();
                Ok(())
            },
            Instruction::SkipIfPressedKeyEqualToRegister { register } => {
                let key = self.get_register(register);
                if self.bus.input.is_key_down(key) {
                    self.inc_pc();
                }
                self.inc_pc();
                Ok(())
            },
            Instruction::DontSkipIfPressedKeyEqualToRegister { register } => {
                let key = self.get_register(register);
                if !self.bus.input.is_key_down(key) {
                    self.inc_pc();
                }
                self.inc_pc();
                Ok(())
            },
            Instruction::SetRegisterToDelayTimer { register } => {
                let v = self.DT;
                self.set_register(register, v);
                self.inc_pc();
                Ok(())
            },
            Instruction::WaitForKeyPressAndStoreValue { register } => {
                match self.bus.input.last_pressed_key() {
                    None => Ok(()),
                    Some(k) => {
                        self.set_register(register, k);
                        self.inc_pc();
                        Ok(())
                    },
                }
            },
            Instruction::SetDelayTimerToRegister { register } => {
                self.DT = self.get_register(register);
                self.inc_pc();
                Ok(())
            },
            Instruction::SetSoundTimerToRegister { register } => {
                self.ST = self.get_register(register);
                self.inc_pc();
                Ok(())
            },
            Instruction::AddRegisterToRegisterI { register } => {
                let t = (self.I as u32) + (self.get_register(register) as u32);
                self.I = (t % 0x10000) as u16;
                self.inc_pc();
                Ok(())
            },
            Instruction::SetIToFontAddress { digit } => {
                self.I = self.bus.memory.get_font_address(&digit);
                self.inc_pc();
                Ok(())
            },
            _ => {
                proof {
                    assert(false);
                }
                Err(Fault::OutOfBounds)
            },
        }
    }

    /// The operations that walk memory: sprite drawing, the decimal
    /// decomposition store, and the bulk register transfers. The address
    /// register itself is left unchanged by the bulk transfers.
    #[verifier::rlimit(100)]
    fn execute_memory(&mut self, ins: Instruction, rnd: u8) -> (r: Result<(), Fault>)
        requires
            old(self).wf(),
            decoded_wf(ins),
            ins is DisplaySpriteAtLocation || ins is StoreBCDValueOfRegisterToI
                || ins is StoreNRegistersToMemory || ins is ReadNRegistersFromMemory,
        ensures
            final(self).wf(),
            execute_rel(old(self)@, final(self)@, r, ins, rnd),
            r is Err ==> *final(self) == *old(self),
    {
        match ins {
            Instruction::DisplaySpriteAtLocation { x, y, n } => {
                let vx = self.get_register(x);
                let vy = self.get_register(y);
                let i0 = self.I as usize;
                if i0 + (n as usize) > MEMORY_SIZE {
                    return Err(Fault::OutOfBounds);
                }
                let mut rows: Vec<u8> = Vec::new();
                let mut k: usize = 0;
                while k < n as usize
                    invariant
                        k <= n as usize,
                        i0 + (n as usize) <= MEMORY_SIZE,
                        self.bus.memory@.len() == MEMORY_SIZE,
                        rows@ == self.bus.memory@.subrange(i0 as int, i0 + k),
                    decreases n as usize - k,
                {
                    let b = self.bus.memory.memory[i0 + k];
                    rows.push(b);
                    proof {
                        assert(self.bus.memory@.subrange(i0 as int, i0 + k + 1)
                            =~= self.bus.memory@.subrange(i0 as int, i0 + k).push(b));
                    }
                    k = k + 1;
                }
                let collision = self.bus.graphics.draw_sprite(vx, vy, &rows);
                self.VF = if collision {
                    1
                } else {
                    0
                };
                self.inc_pc();
                Ok(())
            },
            Instruction::StoreBCDValueOfRegisterToI { register } => {
                let i0 = self.I as usize;
                if i0 + 3 > MEMORY_SIZE {
                    return Err(Fault::OutOfBounds);
                }
                let v = self.get_register(register);
                self.bus.memory.memory.set(i0, v / 100);
                self.bus.memory.memory.set(i0 + 1, (v / 10) % 10);
                self.bus.memory.memory.set(i0 + 2, v % 10);
                self.inc_pc();
                Ok(())
            },
            Instruction::StoreNRegistersToMemory { n } => {
                let i0 = self.I as usize;
                let count = (n as usize) + 1;
                if i0 + count > MEMORY_SIZE {
                    return Err(Fault::OutOfBounds);
                }
                let ghost pre = *self;
                let mut k: usize = 0;
                while k < count
                    invariant
                        k <= count,
                        count <= 16,
                        i0 + count <= MEMORY_SIZE,
                        self.registers == pre.registers,
                        self.stack == pre.stack,
                        self.I == pre.I,
                        self.VF == pre.VF,
                        self.PC == pre.PC,
                        self.SP == pre.SP,
                        self.DT == pre.DT,
                        self.ST == pre.ST,
                        self.bus.input == pre.bus.input,
                        self.bus.graphics == pre.bus.graphics,
                        self.bus.sound == pre.bus.sound,
                        pre.registers@.len() == 16,
                        pre.bus.memory@.len() == MEMORY_SIZE,
                        self.bus.memory@.len() == MEMORY_SIZE,
                        self.bus.memory@ == store_seq(
                            pre.bus.memory@,
                            pre.registers@,
                            i0 as int,
                            k as nat,
                        ),
                    decreases count - k,
                {
                    let b = self.registers[k];
                    self.bus.memory.memory.set(i0 + k, b);
                    k = k + 1;
                }
                self.inc_pc();
                Ok(())
            },
            Instruction::ReadNRegistersFromMemory { n } => {
                let i0 = self.I as usize;
                let count = (n as usize) + 1;
                if i0 + count > MEMORY_SIZE {
                    return Err(Fault::OutOfBounds);
                }
                let ghost pre = *self;
                let mut k: usize = 0;
                while k < count
                    invariant
                        k <= count,
                        count <= 16,
                        i0 + count <= MEMORY_SIZE,
                        self.stack == pre.stack,
                        self.I == pre.I,
                        self.VF == pre.VF,
                        self.PC == pre.PC,
                        self.SP == pre.SP,
                        self.DT == pre.DT,
                        self.ST == pre.ST,
                        self.bus == pre.bus,
                        pre.registers@.len() == 16,
                        pre.bus.memory@.len() == MEMORY_SIZE,
                        self.registers@.len() == 16,
                        self.registers@ == load_seq(
                            pre.registers@,
                            pre.bus.memory@,
                            i0 as int,
                            k as nat,
                        ),
                    decreases count - k,
                {
                    let b = self.bus.memory.memory[i0 + k];
                    self.registers.set(k, b);
                    k = k + 1;
                }
                self.inc_pc();
                Ok(())
            },
            _ => {
                proof {
                    assert(false);
                }
                Err(Fault::OutOfBounds)
            },
        }
    }

    /// One whole cycle: fetch the word at the program counter, decode it,
    /// apply it. A failing fetch aborts the cycle before decode, with the
    /// machine untouched.
    pub fn step(&mut self) -> (r: Result<(), Fault>)
        requires
            old(self).wf(),
        ensures
            final(self).wf(),
            exists|rnd: u8| #[trigger] step_rel(old(self)@, final(self)@, r, rnd),
            r is Err ==> *final(self) == *old(self),
    {
        match self.fetch_opcode() {
            Err(f) => {
                proof {
                    assert(step_rel(old(self)@, self@, Err::<(), Fault>(f), 0u8));
                }
                Err(f)
            },
            Ok(w) => {
                let ins = self.decode(w);
                let r = self.execute_opcode(ins);
                proof {
                    let rnd = choose|rnd: u8| execute_rel(old(self)@, self@, r, ins, rnd);
                    assert(step_rel(old(self)@, self@, r, rnd));
                }
                r
            },
        }
    }
}

} // verus!
