use vstd::prelude::*;

use crate::errors::Fault;

verus! {

/// Number of addressable bytes in the store.
pub const MEMORY_SIZE: usize = 4096;

/// Base address of the built-in glyph bitmap table.
pub const FONT_START: u16 = 0;

/// Height in bytes of one glyph bitmap.
pub const FONT_SIZE: u8 = 5;

/// The fixed 80-byte bitmap table: 16 glyphs of 5 rows each, one glyph per
/// hexadecimal digit.
pub open spec fn font_set() -> Seq<u8> {
    seq![
        0xF0u8, 0x90, 0x90, 0x90, 0xF0,
        0x20, 0x60, 0x20, 0x20, 0x70,
        0xF0, 0x10, 0xF0, 0x80, 0xF0,
        0xF0, 0x10, 0xF0, 0x10, 0xF0,
        0x90, 0x90, 0xF0, 0x10, 0x10,
        0xF0, 0x80, 0xF0, 0x10, 0xF0,
        0xF0, 0x80, 0xF0, 0x90, 0xF0,
        0xF0, 0x10, 0x20, 0x40, 0x40,
        0xF0, 0x90, 0xF0, 0x90, 0xF0,
        0xF0, 0x90, 0xF0, 0x10, 0xF0,
        0xF0, 0x90, 0xF0, 0x90, 0x90,
        0xE0, 0x90, 0xE0, 0x90, 0xE0,
        0xF0, 0x80, 0x80, 0x80, 0xF0,
        0xE0, 0x90, 0x90, 0x90, 0xE0,
        0xF0, 0x80, 0xF0, 0x80, 0xF0,
        0xF0, 0x80, 0xF0, 0x80, 0x80,
    ]
}

/// The 16-bit word stored big-endian at `a`: high byte first.
pub open spec fn spec_word_at(mem: Seq<u8>, a: int) -> u16 {
    ((mem[a] as u16) << 8u16) | (mem[a + 1] as u16)
}

/// Flat byte-addressable store. Every access is range-checked; an address at
/// or past `MEMORY_SIZE` is an `OutOfBounds` fault, never a silent wrap.
pub struct Memory {
    pub memory: Vec<u8>,
}

impl View for Memory {
    type V = Seq<u8>;

    open spec fn view(&self) -> Seq<u8> {
        self.memory@
    }
}

impl Memory {
    pub open spec fn wf(&self) -> bool {
        self@.len() == MEMORY_SIZE
    }

    /// A zeroed store.
    pub fn new() -> (m: Memory)
        ensures
            m.wf(),
            forall|i: int| 0 <= i < MEMORY_SIZE ==> m@[i] == 0u8,
    {
        let mut bytes: Vec<u8> = Vec::new();
        let mut i: usize = 0;
        while i < MEMORY_SIZE
            invariant
                i <= MEMORY_SIZE,
                bytes@.len() == i,
                forall|k: int| 0 <= k < i ==> bytes@[k] == 0u8,
            decreases MEMORY_SIZE - i,
        {
            bytes.push(0u8);
            i = i + 1;
        }
        Memory { memory: bytes }
    }

    pub fn read(&self, address: &u16) -> (r: Result<u8, Fault>)
        requires
            self.wf(),
        ensures
            match r {
                Ok(b) => *address < MEMORY_SIZE && b == self@[*address as int],
                Err(f) => f == Fault::OutOfBounds && *address >= MEMORY_SIZE,
            },
    {
        if (*address as usize) < MEMORY_SIZE {
            Ok(self.memory[*address as usize])
        } else {
            Err(Fault::OutOfBounds)
        }
    }

    pub fn write(&mut self, address: &u16, data: &u8) -> (r: Result<(), Fault>)
        requires
            old(self).wf(),
        ensures
            final(self).wf(),
            match r {
                Ok(()) => *address < MEMORY_SIZE && final(self)@ == old(self)@.update(
                    *address as int,
                    *data,
                ),
                Err(f) => f == Fault::OutOfBounds && *address >= MEMORY_SIZE && final(self)@
                    == old(self)@,
            },
    {
        if (*address as usize) < MEMORY_SIZE {
            self.memory.set(*address as usize, *data);
            Ok(())
        } else {
            Err(Fault::OutOfBounds)
        }
    }

    /// Write the fixed glyph table at its reserved base. Idempotent: the
    /// bytes written do not depend on the store's prior contents.
    pub fn load_fonts(&mut self)
        requires
            old(self).wf(),
        ensures
            final(self).wf(),
            forall|i: int| 0 <= i < 80 ==> final(self)@[i] == font_set()[i],
            forall|i: int| 80 <= i < MEMORY_SIZE ==> final(self)@[i] == old(self)@[i],
    {
        let fonts = font_table();
        let ghost base: Seq<u8> = self.memory@;
        let mut i: usize = 0;
        while i < 80
            invariant
                i <= 80,
                fonts@ == font_set(),
                self.memory@.len() == MEMORY_SIZE,
                forall|k: int| 0 <= k < i ==> self.memory@[k] == font_set()[k],
                forall|k: int| i <= k < MEMORY_SIZE ==> self.memory@[k] == base[k],
            decreases 80 - i,
        {
            self.memory.set(i, fonts[i]);
            i = i + 1;
        }
    }

    /// Sequential writes of `data` starting at `start_address`; the block must
    /// fit inside the store, else nothing is written and the bulk load fails.
    pub fn load_data(&mut self, start_address: &u16, data: &Vec<u8>) -> (r: Result<(), Fault>)
        requires
            old(self).wf(),
        ensures
            final(self).wf(),
            match r {
                Ok(()) => {
                    &&& *start_address as int + data@.len() <= MEMORY_SIZE
                    &&& forall|i: int|
                        0 <= i < data@.len() ==> final(self)@[*start_address as int + i]
                            == data@[i]
                    &&& forall|i: int|
                        0 <= i < MEMORY_SIZE && !(*start_address <= i < *start_address as int
                            + data@.len()) ==> final(self)@[i] == old(self)@[i]
                },
                Err(f) => {
                    &&& f == Fault::OutOfBounds
                    &&& *start_address as int + data@.len() > MEMORY_SIZE
                    &&& final(self)@ == old(self)@
                },
            },
    {
        if data.len() > MEMORY_SIZE || (*start_address as usize) > MEMORY_SIZE - data.len() {
            return Err(Fault::OutOfBounds);
        }
        let start = *start_address as usize;
        let ghost base: Seq<u8> = self.memory@;
        let mut j: usize = 0;
        while j < data.len()
            invariant
                j <= data@.len(),
                start + data@.len() <= MEMORY_SIZE,
                self.memory@.len() == MEMORY_SIZE,
                forall|i: int| 0 <= i < j ==> self.memory@[start + i] == data@[i],
                forall|i: int|
                    0 <= i < MEMORY_SIZE && !(start <= i < start + j) ==> self.memory@[i]
                        == base[i],
            decreases data@.len() - j,
        {
            self.memory.set(start + j, data[j]);
            j = j + 1;
        }
        Ok(())
    }

    /// Address of the glyph bitmap for `font`: pure computation, five bytes
    /// per glyph from the reserved base.
    pub fn get_font_address(&self, font: &u8) -> (r: u16)
        ensures
            r == FONT_START + (*font as u16) * (FONT_SIZE as u16),
    {
        let f = *font as u16;
        proof {
            assert(f * 5 <= 1275) by (nonlinear_arith)
                requires
                    f <= 255,
            ;
        }
        FONT_START + f * (FONT_SIZE as u16)
    }

    /// Read the big-endian instruction word at `address`: two consecutive
    /// bytes, high byte first.
    pub fn read_instruction(&self, address: &u16) -> (r: Result<u16, Fault>)
        requires
            self.wf(),
        ensures
            match r {
                Ok(w) => *address as int + 1 < MEMORY_SIZE && w == spec_word_at(
                    self@,
                    *address as int,
                ),
                Err(f) => f == Fault::OutOfBounds && *address as int + 1 >= MEMORY_SIZE,
            },
    {
        let a = *address as usize;
        if a + 1 < MEMORY_SIZE {
            let high = self.memory[a];
            let low = self.memory[a + 1];
            Ok(((high as u16) << 8u16) | (low as u16))
        } else {
            Err(Fault::OutOfBounds)
        }
    }
}

/// The glyph table as bytes in memory order.
fn font_table() -> (v: Vec<u8>)
    ensures
        v@ == font_set(),
{
    let mut v: Vec<u8> = Vec::new();
    v.push(0xF0);
    v.push(0x90);
    v.push(0x90);
    v.push(0x90);
    v.push(0xF0);
    v.push(0x20);
    v.push(0x60);
    v.push(0x20);
    v.push(0x20);
    v.push(0x70);
    v.push(0xF0);
    v.push(0x10);
    v.push(0xF0);
    v.push(0x80);
    v.push(0xF0);
    v.push(0xF0);
    v.push(0x10);
    v.push(0xF0);
    v.push(0x10);
    v.push(0xF0);
    v.push(0x90);
    v.push(0x90);
    v.push(0xF0);
    v.push(0x10);
    v.push(0x10);
    v.push(0xF0);
    v.push(0x80);
    v.push(0xF0);
    v.push(0x10);
    v.push(0xF0);
    v.push(0xF0);
    v.push(0x80);
    v.push(0xF0);
    v.push(0x90);
    v.push(0xF0);
    v.push(0xF0);
    v.push(0x10);
    v.push(0x20);
    v.push(0x40);
    v.push(0x40);
    v.push(0xF0);
    v.push(0x90);
    v.push(0xF0);
    v.push(0x90);
    v.push(0xF0);
    v.push(0xF0);
    v.push(0x90);
    v.push(0xF0);
    v.push(0x10);
    v.push(0xF0);
    v.push(0xF0);
    v.push(0x90);
    v.push(0xF0);
    v.push(0x90);
    v.push(0x90);
    v.push(0xE0);
    v.push(0x90);
    v.push(0xE0);
    v.push(0x90);
    v.push(0xE0);
    v.push(0xF0);
    v.push(0x80);
    v.push(0x80);
    v.push(0x80);
    v.push(0xF0);
    v.push(0xE0);
    v.push(0x90);
    v.push(0x90);
    v.push(0x90);
    v.push(0xE0);
    v.push(0xF0);
    v.push(0x80);
    v.push(0xF0);
    v.push(0x80);
    v.push(0xF0);
    v.push(0xF0);
    v.push(0x80);
    v.push(0xF0);
    v.push(0x80);
    v.push(0x80);
    proof {
        assert(v@ =~= font_set());
    }
    v
}

} // verus!
