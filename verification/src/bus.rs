use vstd::prelude::*;

use crate::graphics::Graphics;
use crate::graphics::SCREEN_PIXELS;
use crate::input::Input;
use crate::input::KEY_COUNT;
use crate::memory::font_set;
use crate::memory::Memory;
use crate::memory::MEMORY_SIZE;
use crate::sound::Sound;

verus! {

/// Everything the execution core reaches beyond its own registers: the
/// memory image and the peripheral state it reads and writes.
pub struct Bus {
    pub memory: Memory,
    pub input: Input,
    pub graphics: Graphics,
    pub sound: Sound,
}

/// A freshly constructed bus: glyph table in its reserved region, the rest of
/// memory zeroed, screen clear, no key activity, tone off.
pub open spec fn bus_initial(b: Bus) -> bool {
    &&& b.wf()
    &&& forall|i: int| 0 <= i < 80 ==> b.memory@[i] == font_set()[i]
    &&& forall|i: int| 80 <= i < MEMORY_SIZE ==> b.memory@[i] == 0u8
    &&& b.graphics@ == Seq::new(SCREEN_PIXELS as nat, |i: int| false)
    &&& b.input@.keys == Seq::new(KEY_COUNT as nat, |i: int| false)
    &&& b.input@.last_key is None
    &&& !b.sound.tone_on
}

impl Bus {
    pub open spec fn wf(&self) -> bool {
        &&& self.memory.wf()
        &&& self.input.wf()
        &&& self.graphics.wf()
    }

    /// A bus whose peripherals are plain in-process state, for tests and for
    /// embedding applications alike.
    pub fn mock() -> (b: Bus)
        ensures
            bus_initial(b),
    {
        Bus::new()
    }

    pub fn new() -> (b: Bus)
        ensures
            bus_initial(b),
    {
        let mut memory = Memory::new();
        memory.load_fonts();
        Bus { memory, input: Input::new(), graphics: Graphics::new(), sound: Sound::new() }
    }
}

} // verus!
