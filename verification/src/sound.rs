use vstd::prelude::*;

verus! {

/// Tone line toward the audio peripheral. The embedding application derives
/// the flag from the sound timer (tone on while the timer is above zero) and
/// feeds it to whatever actually makes noise.
pub struct Sound {
    pub tone_on: bool,
}

impl Sound {
    pub fn new() -> (s: Sound)
        ensures
            !s.tone_on,
    {
        Sound { tone_on: false }
    }

    pub fn mock() -> (s: Sound)
        ensures
            !s.tone_on,
    {
        Sound::new()
    }

    pub fn set_tone(&mut self, on: bool)
        ensures
            final(self).tone_on == on,
    {
        self.tone_on = on;
    }

    pub fn is_tone_on(&self) -> (r: bool)
        ensures
            r == self.tone_on,
    {
        self.tone_on
    }
}

} // verus!
