//! The monochrome framebuffer: 64 by 32 cells, row after row, changed only by
//! a full clear or by drawing a sprite with exclusive-or.

use crate::memory::MemoryIterator;
use vstd::prelude::*;

verus! {

/// Cells in one row of the screen.
pub const SCREEN_WIDTH: usize = 64;

/// Rows of the screen.
pub const SCREEN_HEIGHT: usize = 32;

/// Cells of the whole screen.
pub const TOTAL_PIXELS: usize = 2048;

/// Bytes that one cell takes in a frame: red, green, blue and alpha.
pub const BYTES_PER_PIXEL: usize = 4;

/// The colour of a cell that is on.
pub const ON_PIXEL_COLOR: [u8; 4] = [0xe8, 0xf2, 0x55, 0xff];

/// The colour of a cell that is off.
pub const OFF_PIXEL_COLOR: [u8; 4] = [0xb5, 0x83, 0x16, 0xff];

/// The complete memory assosciated to graphics
pub struct GraphicsMemory(pub [bool; 2048]);

/// The column at which a sprite drawn at `x` starts: the origin wraps around
/// the screen.
pub open spec fn origin_column(x: u8) -> int {
    x as int % 64
}

/// The row at which a sprite drawn at `y` starts: the origin wraps around the
/// screen.
pub open spec fn origin_row(y: u8) -> int {
    y as int % 32
}

/// Whether the bit of a sprite row that lies `offset` columns right of the
/// sprite's left edge is set. Offset 0 is the most significant bit.
pub open spec fn sprite_bit(byte: u8, offset: u8) -> bool {
    (byte >> sub_offset(offset)) & 1 == 1
}

/// How far a sprite row is shifted to bring the bit at `offset` to the bottom.
pub open spec fn sub_offset(offset: u8) -> u8 {
    (7 - offset) as u8
}

/// Whether cell `p` lies under the sprite: inside the screen, and inside the
/// eight-wide box of `rows` rows whose top left corner is the wrapped origin.
/// The box does not wrap: what sticks out of the screen covers no cell.
pub open spec fn sprite_covers(x: u8, y: u8, rows: int, p: int) -> bool {
    &&& 0 <= p < 2048
    &&& origin_row(y) <= p / 64 < origin_row(y) + rows
    &&& origin_column(x) <= p % 64 < origin_column(x) + 8
}

/// Whether the sprite has a set bit on cell `p`.
pub open spec fn sprite_lights(x: u8, y: u8, sprite: Seq<u8>, p: int) -> bool {
    sprite_covers(x, y, sprite.len() as int, p) && sprite_bit(
        sprite[p / 64 - origin_row(y)],
        (p % 64 - origin_column(x)) as u8,
    )
}

/// The screen after drawing `sprite` at `(x, y)`: each cell is flipped where
/// the sprite has a set bit and kept where it has none.
pub open spec fn drawn(screen: Seq<bool>, x: u8, y: u8, sprite: Seq<u8>) -> Seq<bool> {
    Seq::new(screen.len(), |p: int| screen[p] != sprite_lights(x, y, sprite, p))
}

/// Whether drawing `sprite` at `(x, y)` hits a cell that is already on.
pub open spec fn collides(screen: Seq<bool>, x: u8, y: u8, sprite: Seq<u8>) -> bool {
    exists|p: int| 0 <= p < screen.len() && #[trigger] screen[p] && sprite_lights(x, y, sprite, p)
}

/// A screen of the same size with every cell off.
pub open spec fn cleared(screen: Seq<bool>) -> Seq<bool> {
    Seq::new(screen.len(), |p: int| false)
}

/// A screen with every cell inverted.
pub open spec fn negated(screen: Seq<bool>) -> Seq<bool> {
    Seq::new(screen.len(), |p: int| !screen[p])
}

/// Whether cell `p` is on in the pattern shown before a program draws.
pub open spec fn startup_pixel(p: int) -> bool {
    ||| 0 <= p <= 5
    ||| p == 10
    ||| p == 15
    ||| 20 <= p <= 24
    ||| (p % 64 == 63 && 0 <= p < 448)
}

/// The pattern shown before a program draws.
pub open spec fn startup_screen() -> Seq<bool> {
    Seq::new(2048, |p: int| startup_pixel(p))
}

/// The colour of a cell.
pub open spec fn pixel_color(on: bool) -> Seq<u8> {
    if on {
        ON_PIXEL_COLOR@
    } else {
        OFF_PIXEL_COLOR@
    }
}

/// How many cells a frame of `len` bytes receives: one for every whole group
/// of four bytes, and no more than the screen has.
pub open spec fn painted_cells(len: nat) -> int {
    if len / 4 < 2048 {
        len as int / 4
    } else {
        2048
    }
}

/// The frame after the screen has been painted into it: the cells in order,
/// four bytes each; bytes for which no cell is left stay as they were.
pub open spec fn painted(screen: Seq<bool>, frame: Seq<u8>) -> Seq<u8> {
    Seq::new(
        frame.len(),
        |i: int|
            if i / 4 < painted_cells(frame.len()) {
                pixel_color(screen[i / 4])[i % 4]
            } else {
                frame[i]
            },
    )
}

/// Whether the draw loop has already passed cell `p` when it stands at
/// sprite row `row`, column offset `col`.
pub open spec fn already_drawn(x: u8, y: u8, p: int, row: int, col: int) -> bool {
    let dr = p / 64 - origin_row(y);
    let dc = p % 64 - origin_column(x);
    dr < row || (dr == row && dc < col)
}

impl View for GraphicsMemory {
    type V = Seq<bool>;

    open spec fn view(&self) -> Seq<bool> {
        self.0@
    }
}

impl GraphicsMemory {
    /// The screen as it is when the machine starts: a small test pattern.
    pub fn new() -> (screen: GraphicsMemory)
        ensures
            screen@ == startup_screen(),
    {
        let mut data = [false;2048];
        data[0] = true;
        data[1] = true;
        data[2] = true;
        data[3] = true;
        data[4] = true;
        data[5] = true;
        data[10] = true;
        data[15] = true;
        data[20] = true;
        data[21] = true;
        data[22] = true;
        data[23] = true;
        data[24] = true;

        data[63] = true;
        data[63 + 64] = true;
        data[63 + 128] = true;
        data[63 + 192] = true;
        data[63 + 256] = true;
        data[63 + 320] = true;
        data[63 + 384] = true;
        Self(data)
    }

    /// Make a iterator over the pixels as registered in the graphics memory
    pub fn iter<'it>(&'it self) -> (cursor: MemoryIterator<'it, bool>)
        ensures
            cursor.wf(),
            cursor.index == 0,
            cursor.max_index == TOTAL_PIXELS,
            cursor.data_slice@ == self@,
            cursor.remaining() == self@,
    {
        let cursor = MemoryIterator { index: 0, data_slice: self.0.as_slice(), max_index: TOTAL_PIXELS };
        cursor
    }

    /// Turns every cell off.
    pub fn clear_screen(&mut self)
        ensures
            final(self)@ == cleared(old(self)@),
    {
        self.0 = [false;2048];
    }

    /// Draws a sprite, eight cells wide and one row per byte, with its top
    /// left corner at `(x, y)`. The corner wraps around the screen; rows and
    /// columns that would leave the screen are cut off. Each cell under a set
    /// bit is flipped. Tells whether any of those cells was on before.
    pub fn display_sprite(&mut self, x: u8, y: u8, sprite: &[u8]) -> (collision: bool)
        ensures
            final(self)@ == drawn(old(self)@, x, y, sprite@),
            collision == collides(old(self)@, x, y, sprite@),
    {
        let x0 = x as usize % SCREEN_WIDTH;
        let y0 = y as usize % SCREEN_HEIGHT;
        let rows = if sprite.len() < SCREEN_HEIGHT - y0 {
            sprite.len()
        } else {
            SCREEN_HEIGHT - y0
        };
        let ghost before = self@;
        let mut collision = false;
        let mut row: usize = 0;
        while row < rows
            invariant
                x0 == origin_column(x),
                y0 == origin_row(y),
                row <= rows <= sprite@.len(),
                y0 + rows <= 32,
                before.len() == 2048,
                forall|p: int|
                    0 <= p < 2048 ==> #[trigger] self@[p] == (before[p] != (sprite_lights(
                        x,
                        y,
                        sprite@,
                        p,
                    ) && already_drawn(x, y, p, row as int, 0))),
                collision ==> collides(before, x, y, sprite@),
                !collision ==> forall|p: int|
                    0 <= p < 2048 && sprite_lights(x, y, sprite@, p) && already_drawn(
                        x,
                        y,
                        p,
                        row as int,
                        0,
                    ) ==> !#[trigger] before[p],
            decreases rows - row,
        {
            let sprite_byte = sprite[row];
            let py = y0 + row;
            let mut x_off: u8 = 0;
            while x_off < 8
                invariant
                    x0 == origin_column(x),
                    y0 == origin_row(y),
                    row < rows <= sprite@.len(),
                    y0 + rows <= 32,
                    py == y0 + row,
                    sprite_byte == sprite@[row as int],
                    x_off <= 8,
                    before.len() == 2048,
                    forall|p: int|
                        0 <= p < 2048 ==> #[trigger] self@[p] == (before[p] != (sprite_lights(
                            x,
                            y,
                            sprite@,
                            p,
                        ) && already_drawn(x, y, p, row as int, x_off as int))),
                    collision ==> collides(before, x, y, sprite@),
                    !collision ==> forall|p: int|
                        0 <= p < 2048 && sprite_lights(x, y, sprite@, p) && already_drawn(
                            x,
                            y,
                            p,
                            row as int,
                            x_off as int,
                        ) ==> !#[trigger] before[p],
                decreases 8 - x_off,
            {
                let px = x0 + x_off as usize;
                let ghost mid = self@;
                if px < SCREEN_WIDTH {
                    let cell = py * SCREEN_WIDTH + px;
                    let pixel = self.0[cell];
                    let sprite_pixel = (sprite_byte >> (7 - x_off)) & 0x1 == 1;
                    if pixel && sprite_pixel {
                        collision = true;
                    }
                    self.0[cell] = pixel != sprite_pixel;
                }
                assert forall|p: int| 0 <= p < 2048 implies #[trigger] self@[p] == (before[p] != (
                sprite_lights(x, y, sprite@, p) && already_drawn(
                    x,
                    y,
                    p,
                    row as int,
                    x_off as int + 1,
                ))) by {
                    assert(mid[p] == (before[p] != (sprite_lights(x, y, sprite@, p) && already_drawn(
                        x,
                        y,
                        p,
                        row as int,
                        x_off as int,
                    ))));
                }
                x_off += 1;
            }
            row += 1;
        }
        collision
    }

    /// Paints the screen into a frame of four bytes a cell, row after row,
    /// for a backend that shows it.
    pub fn render_mem(&self, frame: &mut [u8])
        ensures
            final(frame)@ == painted(self@, old(frame)@),
    {
        let chunks = frame.len() / BYTES_PER_PIXEL;
        let cells = if chunks < TOTAL_PIXELS {
            chunks
        } else {
            TOTAL_PIXELS
        };
        let mut p: usize = 0;
        while p < cells
            invariant
                p <= cells,
                cells == painted_cells(old(frame)@.len()),
                frame@.len() == old(frame)@.len(),
                forall|i: int|
                    0 <= i < frame@.len() ==> #[trigger] frame@[i] == if i / 4 < p {
                        pixel_color(self@[i / 4])[i % 4]
                    } else {
                        old(frame)@[i]
                    },
            decreases cells - p,
        {
            let data = if self.0[p] {
                ON_PIXEL_COLOR
            } else {
                OFF_PIXEL_COLOR
            };
            let ghost mid = frame@;
            let base = p * BYTES_PER_PIXEL;
            frame[base] = data[0];
            frame[base + 1] = data[1];
            frame[base + 2] = data[2];
            frame[base + 3] = data[3];
            assert forall|i: int| 0 <= i < frame@.len() implies #[trigger] frame@[i] == if i / 4 < p
                + 1 {
                pixel_color(self@[i / 4])[i % 4]
            } else {
                old(frame)@[i]
            } by {
                if i / 4 != p {
                    assert(frame@[i] == mid[i]);
                }
            }
            p += 1;
        }
    }

    /// For sake of testing, negate all the pixels
    pub fn negate(&mut self)
        ensures
            final(self)@ == negated(old(self)@),
    {
        let ghost before = self@;
        let mut i: usize = 0;
        while i < TOTAL_PIXELS
            invariant
                i <= TOTAL_PIXELS,
                before.len() == 2048,
                forall|p: int| 0 <= p < i ==> self@[p] == !before[p],
                forall|p: int| i <= p < 2048 ==> self@[p] == before[p],
            decreases TOTAL_PIXELS - i,
        {
            let pixel = self.0[i];
            self.0[i] = !pixel;
            i += 1;
        }
    }
}

/// Clearing twice is the same as clearing once, and leaves every cell off.
pub proof fn lemma_clear_idempotent(screen: Seq<bool>)
    ensures
        cleared(cleared(screen)) == cleared(screen),
        forall|p: int| 0 <= p < screen.len() ==> !cleared(screen)[p],
{
}

/// Drawing the same sprite at the same place twice gives back the screen as
/// it was. The second draw reports a collision exactly when the sprite has a
/// set bit on some cell that is on after the first draw, that is, on a cell
/// that was off before it.
pub proof fn lemma_draw_twice_restores(screen: Seq<bool>, x: u8, y: u8, sprite: Seq<u8>)
    ensures
        drawn(drawn(screen, x, y, sprite), x, y, sprite) == screen,
        collides(drawn(screen, x, y, sprite), x, y, sprite) <==> exists|p: int|
            0 <= p < screen.len() && !#[trigger] screen[p] && sprite_lights(x, y, sprite, p),
{
    let once = drawn(screen, x, y, sprite);
    if collides(once, x, y, sprite) {
        let p = choose|p: int| 0 <= p < once.len() && #[trigger] once[p] && sprite_lights(x, y, sprite, p);
        assert(!screen[p]);
    }
    if exists|p: int| 0 <= p < screen.len() && !#[trigger] screen[p] && sprite_lights(x, y, sprite, p) {
        let p = choose|p: int| 0 <= p < screen.len() && !#[trigger] screen[p] && sprite_lights(x, y, sprite, p);
        assert(once[p]);
    }
}

/// A draw reports a collision exactly when some cell under a set bit of the
/// sprite was on before the draw; such a cell is off afterwards.
pub proof fn lemma_collision_iff_lit_cell_hit(screen: Seq<bool>, x: u8, y: u8, sprite: Seq<u8>)
    ensures
        collides(screen, x, y, sprite) <==> exists|p: int|
            0 <= p < screen.len() && #[trigger] screen[p] && sprite_covers(x, y, sprite.len() as int, p) && sprite_bit(
                sprite[p / 64 - origin_row(y)],
                (p % 64 - origin_column(x)) as u8,
            ),
        forall|p: int|
            0 <= p < screen.len() && #[trigger] screen[p] && sprite_lights(x, y, sprite, p) ==> !drawn(screen, x, y, sprite)[p],
{
}

} // verus!
