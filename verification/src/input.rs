use vstd::prelude::*;

verus! {

/// Number of keys on the keypad.
pub const KEY_COUNT: usize = 16;

/// Mathematical state of the keypad: which keys are held down, and the most
/// recently pressed key, if any.
pub ghost struct InputModel {
    pub keys: Seq<bool>,
    pub last_key: Option<u8>,
}

/// Whether key value `k` counts as held down: a value outside the keypad is
/// never down.
pub open spec fn key_down(keys: Seq<bool>, k: u8) -> bool {
    k < KEY_COUNT && keys[k as int]
}

/// Keypad state as polled by the embedding application: sixteen keys and the
/// most recent press. The core only reads it; the application records presses
/// and releases from its own event source.
pub struct Input {
    pub keys: Vec<bool>,
    pub last_key: Option<u8>,
}

impl View for Input {
    type V = InputModel;

    open spec fn view(&self) -> InputModel {
        InputModel { keys: self.keys@, last_key: self.last_key }
    }
}

impl Input {
    pub open spec fn wf(&self) -> bool {
        &&& self.keys@.len() == KEY_COUNT
        &&& match self.last_key {
            Some(k) => k < KEY_COUNT,
            None => true,
        }
    }

    /// A keypad with nothing down and nothing pressed yet.
    pub fn new() -> (inp: Input)
        ensures
            inp.wf(),
            inp@.keys == Seq::new(KEY_COUNT as nat, |i: int| false),
            inp@.last_key is None,
    {
        let mut keys: Vec<bool> = Vec::new();
        let mut i: usize = 0;
        while i < KEY_COUNT
            invariant
                i <= KEY_COUNT,
                keys@.len() == i,
                forall|k: int| 0 <= k < i ==> !keys@[k],
            decreases KEY_COUNT - i,
        {
            keys.push(false);
            i = i + 1;
        }
        proof {
            assert(keys@ =~= Seq::new(KEY_COUNT as nat, |i: int| false));
        }
        Input { keys, last_key: None }
    }

    pub fn mock() -> (inp: Input)
        ensures
            inp.wf(),
            inp@.keys == Seq::new(KEY_COUNT as nat, |i: int| false),
            inp@.last_key is None,
    {
        Input::new()
    }

    /// Whether key value `key` is held down; a value outside the keypad is
    /// never down.
    pub fn is_key_down(&self, key: u8) -> (r: bool)
        requires
            self.wf(),
        ensures
            r == key_down(self@.keys, key),
    {
        (key as usize) < KEY_COUNT && self.keys[key as usize]
    }

    /// The most recently pressed key, if any.
    pub fn last_pressed_key(&self) -> (r: Option<u8>)
        requires
            self.wf(),
        ensures
            r == self@.last_key,
            match r {
                Some(k) => k < KEY_COUNT,
                None => true,
            },
    {
        self.last_key
    }

    /// Record that `key` went down; a value outside the keypad is ignored.
    pub fn press_key(&mut self, key: u8)
        requires
            old(self).wf(),
        ensures
            final(self).wf(),
            key < KEY_COUNT ==> final(self)@.keys == old(self)@.keys.update(key as int, true)
                && final(self)@.last_key == Some(key),
            key >= KEY_COUNT ==> *final(self) == *old(self),
    {
        if (key as usize) < KEY_COUNT {
            self.keys.set(key as usize, true);
            self.last_key = Some(key);
        }
    }

    /// Record that `key` went up; the last-pressed record is kept.
    pub fn release_key(&mut self, key: u8)
        requires
            old(self).wf(),
        ensures
            final(self).wf(),
            key < KEY_COUNT ==> final(self)@.keys == old(self)@.keys.update(key as int, false)
                && final(self)@.last_key == old(self)@.last_key,
            key >= KEY_COUNT ==> *final(self) == *old(self),
    {
        if (key as usize) < KEY_COUNT {
            self.keys.set(key as usize, false);
        }
    }

    /// Forget the last press, for an application that consumes press events.
    pub fn clear_last_key(&mut self)
        requires
            old(self).wf(),
        ensures
            final(self).wf(),
            final(self)@.keys == old(self)@.keys,
            final(self)@.last_key is None,
    {
        self.last_key = None;
    }
}

} // verus!
