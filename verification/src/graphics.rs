//! The framebuffer and the sprite compositor.
//!
//! The screen is a grid of 64 by 32 cells, each 0 or 1. A sprite is up to
//! fifteen rows of eight pixels, one byte per row with the leftmost pixel in
//! the most significant bit. Drawing XORs the sprite into the grid and wraps
//! around both edges.

use crate::memory::Memory;
use vstd::prelude::*;

verus! {

pub const DISPLAY_WIDTH: usize = 64;

pub const DISPLAY_HEIGHT: usize = 32;

pub const SPRITE_WIDTH: usize = 8;

pub const MAX_SPRITE_HEIGHT: u8 = 15;

/// The screen as rows of cells: `screen[y][x]`.
pub type Screen = Seq<Seq<u8>>;

/// A screen has 32 rows of 64 cells.
pub open spec fn screen_wf(screen: Screen) -> bool {
    &&& screen.len() == 32
    &&& forall|y: int| 0 <= y < 32 ==> (#[trigger] screen[y]).len() == 64
}

/// The screen with every cell at zero.
pub open spec fn blank_screen() -> Screen {
    Seq::new(32, |y: int| Seq::new(64, |x: int| 0u8))
}

/// Pixel `col` of a sprite row, counted from the left: 0 or 1.
pub open spec fn sprite_bit(row: u8, col: int) -> u8 {
    (row >> ((7 - col) as u8)) & 1
}

/// What a sprite drawn at `(x, y)` puts on the cell `(px, py)`: the sprite's
/// pixel that lands there, or 0 where none does. A sprite of at most 32 rows
/// covers no cell twice.
pub open spec fn sprite_cell(sprite: Seq<u8>, x: int, y: int, px: int, py: int) -> u8 {
    let col = (px - x) % 64;
    let row = (py - y) % 32;
    if col < 8 && row < sprite.len() {
        sprite_bit(sprite[row], col)
    } else {
        0
    }
}

/// The screen after `sprite` is drawn at `(x, y)`: each cell XORed with the
/// sprite pixel that lands on it.
pub open spec fn draw_sprite(screen: Screen, sprite: Seq<u8>, x: int, y: int) -> Screen {
    Seq::new(
        32,
        |py: int| Seq::new(64, |px: int| screen[py][px] ^ sprite_cell(sprite, x, y, px, py)),
    )
}

/// Pixel `(row, col)` of the sprite is set and lands on a cell that holds 1.
pub open spec fn erases(screen: Screen, sprite: Seq<u8>, x: int, y: int, row: int, col: int)
    -> bool {
    sprite_bit(sprite[row], col) == 1 && screen[(y + row) % 32][(x + col) % 64] == 1
}

/// Drawing `sprite` at `(x, y)` turns some cell from 1 to 0.
pub open spec fn collides(screen: Screen, sprite: Seq<u8>, x: int, y: int) -> bool {
    exists|row: int, col: int|
        0 <= row < sprite.len() && 0 <= col < 8 && #[trigger] erases(
            screen,
            sprite,
            x,
            y,
            row,
            col,
        )
}

/// What the first `rows` rows of the sprite, and the first `cols` pixels of
/// the row after them, put on the cell `(px, py)`.
spec fn partial_cell(
    sprite: Seq<u8>,
    x: int,
    y: int,
    rows: int,
    cols: int,
    px: int,
    py: int,
) -> u8 {
    let col = (px - x) % 64;
    let row = (py - y) % 32;
    if col < 8 && (row < rows || (row == rows && col < cols)) {
        sprite_bit(sprite[row], col)
    } else {
        0
    }
}

/// Some pixel among the first `rows` rows of the sprite, or the first `cols`
/// pixels of the row after them, erases a cell.
spec fn partial_collides(
    screen: Screen,
    sprite: Seq<u8>,
    x: int,
    y: int,
    rows: int,
    cols: int,
) -> bool {
    exists|row: int, col: int|
        0 <= row && 0 <= col < 8 && (row < rows || (row == rows && col < cols))
            && #[trigger] erases(screen, sprite, x, y, row, col)
}

/// XOR with 0 changes nothing.
proof fn lemma_xor_zero(a: u8)
    ensures
        a ^ 0 == a,
{
    assert(a ^ 0 == a) by (bit_vector);
}

/// XOR with the same byte twice changes nothing.
pub proof fn lemma_xor_twice(a: u8, b: u8)
    ensures
        (a ^ b) ^ b == a,
{
    assert((a ^ b) ^ b == a) by (bit_vector);
}

/// The 64 by 32 framebuffer.
pub struct GraphicsMemory {
    pub mem: [[u8; DISPLAY_WIDTH]; DISPLAY_HEIGHT],
}

impl GraphicsMemory {
    /// The rows of the screen, top to bottom.
    pub open spec fn view(&self) -> Screen {
        Seq::new(32, |y: int| self.mem@[y]@)
    }

    /// A blank screen.
    pub fn new() -> (graphics: Self)
        ensures
            graphics@ == blank_screen(),
    {
        let graphics = GraphicsMemory { mem: [[0u8; DISPLAY_WIDTH]; DISPLAY_HEIGHT] };
        assert(graphics@ =~~= blank_screen());
        graphics
    }

    /// Sets every cell to zero.
    pub fn clear(&mut self)
        ensures
            final(self)@ == blank_screen(),
    {
        self.mem = [[0u8; DISPLAY_WIDTH]; DISPLAY_HEIGHT];
        assert(self@ =~~= blank_screen());
    }

    /// Draws the sprite of `height` rows that stands in `memory` from
    /// `index` on, with its top left corner at `(x, y)`, and reports whether
    /// a cell went from 1 to 0.
    pub fn draw(&mut self, memory: &Memory, index: u16, x: u8, y: u8, height: u8) -> (collision:
        bool)
        requires
            height <= MAX_SPRITE_HEIGHT,
            index + height <= 4096,
        ensures
            final(self)@ == draw_sprite(
                old(self)@,
                memory@.subrange(index as int, index + height),
                x as int,
                y as int,
            ),
            collision == collides(
                old(self)@,
                memory@.subrange(index as int, index + height),
                x as int,
                y as int,
            ),
    {
        let ghost before = self@;
        let ghost sprite = memory@.subrange(index as int, index + height);
        let ghost gx = x as int;
        let ghost gy = y as int;
        let vx = x as usize;
        let vy = y as usize;
        let rows = height as usize;
        let mut flipped = false;
        let mut row: usize = 0;
        proof {
            assert forall|py: int, px: int| 0 <= py < 32 && 0 <= px < 64 implies self@[py][px]
                == before[py][px] ^ partial_cell(sprite, gx, gy, 0, 0, px, py) by {
                lemma_xor_zero(before[py][px]);
            }
        }
        while row < rows
            invariant
                row <= rows,
                rows == height,
                height <= 15,
                index + height <= 4096,
                vx == x,
                vy == y,
                gx == x,
                gy == y,
                sprite == memory@.subrange(index as int, index + height),
                forall|py: int, px: int|
                    0 <= py < 32 && 0 <= px < 64 ==> self@[py][px] == before[py][px]
                        ^ partial_cell(sprite, gx, gy, row as int, 0, px, py),
                flipped == partial_collides(before, sprite, gx, gy, row as int, 0),
            decreases rows - row,
        {
            let ty = (vy + row) % DISPLAY_HEIGHT;
            let pixels = memory.mem[index as usize + row];
            assert(pixels == sprite[row as int]);
            let mut col: usize = 0;
            while col < SPRITE_WIDTH
                invariant
                    col <= 8,
                    row < rows,
                    rows == height,
                    height <= 15,
                    vx == x,
                    vy == y,
                    gx == x,
                    gy == y,
                    ty == (vy + row) % 32,
                    pixels == sprite[row as int],
                    sprite.len() == height,
                    forall|py: int, px: int|
                        0 <= py < 32 && 0 <= px < 64 ==> self@[py][px] == before[py][px]
                            ^ partial_cell(sprite, gx, gy, row as int, col as int, px, py),
                    flipped == partial_collides(before, sprite, gx, gy, row as int, col as int),
                decreases 8 - col,
            {
                let tx = (vx + col) % DISPLAY_WIDTH;
                let shift: u8 = 7 - col as u8;
                let bit = (pixels >> shift) & 1;
                let ghost current = self@;
                let ghost was = flipped;
                assert(bit == sprite_bit(sprite[row as int], col as int));
                assert((tx - gx) % 64 == col && (ty - gy) % 32 == row);
                assert(current[ty as int][tx as int] == before[ty as int][tx as int]) by {
                    lemma_xor_zero(before[ty as int][tx as int]);
                }
                if bit == 1 && self.mem[ty][tx] == 1 {
                    flipped = true;
                }
                self.mem[ty][tx] ^= bit;
                proof {
                    assert forall|py: int, px: int| 0 <= py < 32 && 0 <= px < 64 implies self@[py][px]
                        == before[py][px] ^ partial_cell(
                        sprite,
                        gx,
                        gy,
                        row as int,
                        col + 1,
                        px,
                        py,
                    ) by {
                        if py == ty && px == tx {
                        } else {
                            assert(self@[py][px] == current[py][px]);
                            assert(!((px - gx) % 64 == col && (py - gy) % 32 == row));
                        }
                    }
                    assert(erases(before, sprite, gx, gy, row as int, col as int) == (bit == 1
                        && current[ty as int][tx as int] == 1));
                    if was {
                        let (r0, c0) = choose|r0: int, c0: int|
                            0 <= r0 && 0 <= c0 < 8 && (r0 < row || (r0 == row && c0 < col))
                                && #[trigger] erases(before, sprite, gx, gy, r0, c0);
                        assert(erases(before, sprite, gx, gy, r0, c0));
                    }
                    if partial_collides(before, sprite, gx, gy, row as int, col + 1) {
                        let (r1, c1) = choose|r1: int, c1: int|
                            0 <= r1 && 0 <= c1 < 8 && (r1 < row || (r1 == row && c1 < col + 1))
                                && #[trigger] erases(before, sprite, gx, gy, r1, c1);
                        if r1 == row && c1 == col {
                        } else {
                            assert(erases(before, sprite, gx, gy, r1, c1));
                        }
                    }
                }
                col += 1;
            }
            proof {
                assert forall|py: int, px: int| 0 <= py < 32 && 0 <= px < 64 implies partial_cell(
                    sprite,
                    gx,
                    gy,
                    row as int,
                    8,
                    px,
                    py,
                ) == partial_cell(sprite, gx, gy, row + 1, 0, px, py) by {}
                if flipped {
                    let (r0, c0) = choose|r0: int, c0: int|
                        0 <= r0 && 0 <= c0 < 8 && (r0 < row || (r0 == row && c0 < 8))
                            && #[trigger] erases(before, sprite, gx, gy, r0, c0);
                    assert(erases(before, sprite, gx, gy, r0, c0));
                }
                if partial_collides(before, sprite, gx, gy, row + 1, 0) {
                    let (r1, c1) = choose|r1: int, c1: int|
                        0 <= r1 && 0 <= c1 < 8 && (r1 < row + 1 || (r1 == row + 1 && c1 < 0))
                            && #[trigger] erases(before, sprite, gx, gy, r1, c1);
                    assert(erases(before, sprite, gx, gy, r1, c1));
                }
            }
            row += 1;
        }
        proof {
            assert forall|py: int, px: int| 0 <= py < 32 && 0 <= px < 64 implies partial_cell(
                sprite,
                gx,
                gy,
                rows as int,
                0,
                px,
                py,
            ) == sprite_cell(sprite, gx, gy, px, py) by {}
            assert(self@ =~~= draw_sprite(before, sprite, gx, gy));
            if flipped {
                let (r0, c0) = choose|r0: int, c0: int|
                    0 <= r0 && 0 <= c0 < 8 && (r0 < rows || (r0 == rows && c0 < 0))
                        && #[trigger] erases(before, sprite, gx, gy, r0, c0);
                assert(erases(before, sprite, gx, gy, r0, c0));
            }
            if collides(before, sprite, gx, gy) {
                let (r1, c1) = choose|r1: int, c1: int|
                    0 <= r1 < sprite.len() && 0 <= c1 < 8 && #[trigger] erases(
                        before,
                        sprite,
                        gx,
                        gy,
                        r1,
                        c1,
                    );
                assert(erases(before, sprite, gx, gy, r1, c1));
            }
        }
        flipped
    }
}

} // verus!
