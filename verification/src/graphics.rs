use vstd::prelude::*;

verus! {

/// Width of the pixel buffer in pixels.
pub const SCREEN_WIDTH: usize = 64;

/// Height of the pixel buffer in pixels.
pub const SCREEN_HEIGHT: usize = 32;

/// Number of pixels in the buffer.
pub const SCREEN_PIXELS: usize = 2048;

/// Whether column `c` (0 is the leftmost pixel) of a sprite row byte is set.
/// Bit 7 is the leftmost pixel of the row.
pub open spec fn sprite_bit(byte: u8, c: int) -> bool {
    (byte >> ((7 - c) as u8)) & 1 == 1
}

/// The buffer and accumulated collision after XOR-ing the first `c` columns
/// of one sprite row byte onto row `py`, starting at column `x`, with
/// horizontal wraparound. A set sprite bit flips its pixel; a collision is a
/// previously-set pixel that a set sprite bit lands on.
pub open spec fn apply_cols(screen: Seq<bool>, x: int, py: int, byte: u8, c: nat) -> (Seq<
    bool,
>, bool)
    decreases c,
{
    if c == 0 {
        (screen, false)
    } else {
        let prev = apply_cols(screen, x, py, byte, (c - 1) as nat);
        let px = (x + c - 1) % 64;
        let idx = py * 64 + px;
        if sprite_bit(byte, c - 1) {
            (prev.0.update(idx, !prev.0[idx]), prev.1 || prev.0[idx])
        } else {
            prev
        }
    }
}

/// The buffer and accumulated collision after XOR-ing the first `k` rows of a
/// sprite onto the buffer at `(x, y)`, with wraparound on both axes.
pub open spec fn apply_rows(screen: Seq<bool>, x: int, y: int, rows: Seq<u8>, k: nat) -> (Seq<
    bool,
>, bool)
    decreases k,
{
    if k == 0 {
        (screen, false)
    } else {
        let prev = apply_rows(screen, x, y, rows, (k - 1) as nat);
        let py = (y + k - 1) % 32;
        let step = apply_cols(prev.0, x, py, rows[k - 1], 8);
        (step.0, prev.1 || step.1)
    }
}

/// The buffer and collision flag after drawing a whole sprite.
pub open spec fn draw_model(screen: Seq<bool>, x: int, y: int, rows: Seq<u8>) -> (Seq<bool>, bool) {
    apply_rows(screen, x, y, rows, rows.len())
}

/// Applying sprite columns to a full-size buffer never changes its size.
pub proof fn lemma_apply_cols_len(screen: Seq<bool>, x: int, py: int, byte: u8, c: nat)
    requires
        screen.len() == SCREEN_PIXELS,
        0 <= x,
        0 <= py < 32,
    ensures
        apply_cols(screen, x, py, byte, c).0.len() == screen.len(),
    decreases c,
{
    if c > 0 {
        lemma_apply_cols_len(screen, x, py, byte, (c - 1) as nat);
    }
}

/// Monochrome pixel buffer, row-major: the pixel at `(x, y)` is entry
/// `y * SCREEN_WIDTH + x`. Sprites are XOR-ed on with wraparound.
pub struct Graphics {
    pub buffer: Vec<bool>,
}

impl View for Graphics {
    type V = Seq<bool>;

    open spec fn view(&self) -> Seq<bool> {
        self.buffer@
    }
}

impl Graphics {
    pub open spec fn wf(&self) -> bool {
        self@.len() == SCREEN_PIXELS
    }

    /// A cleared buffer.
    pub fn new() -> (g: Graphics)
        ensures
            g.wf(),
            g@ == Seq::new(SCREEN_PIXELS as nat, |i: int| false),
    {
        let mut buffer: Vec<bool> = Vec::new();
        let mut i: usize = 0;
        while i < SCREEN_PIXELS
            invariant
                i <= SCREEN_PIXELS,
                buffer@.len() == i,
                forall|k: int| 0 <= k < i ==> !buffer@[k],
            decreases SCREEN_PIXELS - i,
        {
            buffer.push(false);
            i = i + 1;
        }
        proof {
            assert(buffer@ =~= Seq::new(SCREEN_PIXELS as nat, |i: int| false));
        }
        Graphics { buffer }
    }

    pub fn mock() -> (g: Graphics)
        ensures
            g.wf(),
            g@ == Seq::new(SCREEN_PIXELS as nat, |i: int| false),
    {
        Graphics::new()
    }

    /// Reset every pixel.
    pub fn clear(&mut self)
        requires
            old(self).wf(),
        ensures
            final(self).wf(),
            final(self)@ == Seq::new(SCREEN_PIXELS as nat, |i: int| false),
    {
        let mut i: usize = 0;
        while i < SCREEN_PIXELS
            invariant
                i <= SCREEN_PIXELS,
                self.buffer@.len() == SCREEN_PIXELS,
                forall|k: int| 0 <= k < i ==> !self.buffer@[k],
            decreases SCREEN_PIXELS - i,
        {
            self.buffer.set(i, false);
            i = i + 1;
        }
        proof {
            assert(self.buffer@ =~= Seq::new(SCREEN_PIXELS as nat, |i: int| false));
        }
    }

    /// XOR an n-row sprite (each row up to 8 pixels wide) onto the buffer at
    /// `(x, y)` with wraparound; the result tells whether any previously-set
    /// pixel was cleared.
    pub fn draw_sprite(&mut self, x: u8, y: u8, rows: &Vec<u8>) -> (collision: bool)
        requires
            old(self).wf(),
            rows@.len() <= 15,
        ensures
            final(self).wf(),
            final(self)@ == draw_model(old(self)@, x as int, y as int, rows@).0,
            collision == draw_model(old(self)@, x as int, y as int, rows@).1,
    {
        let ghost base: Seq<bool> = self.buffer@;
        let mut collision = false;
        let mut r: usize = 0;
        while r < rows.len()
            invariant
                r <= rows@.len(),
                rows@.len() <= 15,
                self.buffer@.len() == SCREEN_PIXELS,
                self.buffer@ == apply_rows(base, x as int, y as int, rows@, r as nat).0,
                collision == apply_rows(base, x as int, y as int, rows@, r as nat).1,
            decreases rows@.len() - r,
        {
            let byte = rows[r];
            let py = ((y as usize) + r) % 32;
            let ghost row_base: Seq<bool> = self.buffer@;
            let ghost col_base: bool = collision;
            let mut c: usize = 0;
            while c < 8
                invariant
                    c <= 8,
                    py < 32,
                    self.buffer@.len() == SCREEN_PIXELS,
                    row_base.len() == SCREEN_PIXELS,
                    self.buffer@ == apply_cols(row_base, x as int, py as int, byte, c as nat).0,
                    collision == (col_base || apply_cols(
                        row_base,
                        x as int,
                        py as int,
                        byte,
                        c as nat,
                    ).1),
                decreases 8 - c,
            {
                proof {
                    lemma_apply_cols_len(row_base, x as int, py as int, byte, c as nat);
                }
                let amt = (7 - c) as u8;
                if (byte >> amt) & 1 == 1 {
                    let px = ((x as usize) + c) % 64;
                    let idx = py * 64 + px;
                    let prev_pix = self.buffer[idx];
                    if prev_pix {
                        collision = true;
                    }
                    self.buffer.set(idx, !prev_pix);
                }
                c = c + 1;
            }
            proof {
                assert(apply_cols(row_base, x as int, py as int, byte, 8) == apply_cols(
                    row_base,
                    x as int,
                    py as int,
                    byte,
                    c as nat,
                ));
            }
            r = r + 1;
        }
        collision
    }

    /// The pixel at `(x, y)`.
    pub fn get_pixel(&self, x: usize, y: usize) -> (r: bool)
        requires
            self.wf(),
            x < SCREEN_WIDTH,
            y < SCREEN_HEIGHT,
        ensures
            r == self@[y * 64 + x],
    {
        self.buffer[y * 64 + x]
    }
}

} // verus!
