//! The clipboard toast: a short message in a bitmap font of 5 by 7 cells.

use vstd::prelude::*;

use crate::overlay::{pack, pixel_index, Rgb};
use crate::text::{self, ascii_upper, to_chars};

verus! {

pub const WIDTH: u32 = 420;

pub const HEIGHT: u32 = 56;

/// Distance of the toast from the bottom of the screen, in logical pixels.
pub const MARGIN: u32 = 110;

/// Seconds for which the toast is shown.
pub const VISIBLE_SECS: u64 = 4;

/// Edge length of a font cell, in pixels.
pub const SCALE: i32 = 2;

pub const GLYPH_W: i32 = 5;

pub const GLYPH_H: i32 = 7;

/// From one glyph to the next: its cells and a blank column.
pub const ADVANCE: i32 = 12;

/// Where the text may begin.
pub const TEXT_LEFT: i32 = 40;

/// Free space to the right of the text.
pub const PAD_RIGHT: i32 = 18;

/// The seven rows of a character, top row first; the leftmost of a row's five
/// cells is its highest bit. Lower case looks like upper case, and a character
/// without a glyph is blank.
pub open spec fn glyph_rows(ch: char) -> Seq<u8> {
    let c = text::upper_char(ch);
    if c == 'A' {
        seq![0b01110u8, 0b10001, 0b10001, 0b11111, 0b10001, 0b10001, 0b10001]
    } else if c == 'B' {
        seq![0b11110u8, 0b10001, 0b10001, 0b11110, 0b10001, 0b10001, 0b11110]
    } else if c == 'C' {
        seq![0b01110u8, 0b10001, 0b10000, 0b10000, 0b10000, 0b10001, 0b01110]
    } else if c == 'D' {
        seq![0b11110u8, 0b10001, 0b10001, 0b10001, 0b10001, 0b10001, 0b11110]
    } else if c == 'E' {
        seq![0b11111u8, 0b10000, 0b10000, 0b11110, 0b10000, 0b10000, 0b11111]
    } else if c == 'F' {
        seq![0b11111u8, 0b10000, 0b10000, 0b11110, 0b10000, 0b10000, 0b10000]
    } else if c == 'G' {
        seq![0b01110u8, 0b10001, 0b10000, 0b10111, 0b10001, 0b10001, 0b01111]
    } else if c == 'H' {
        seq![0b10001u8, 0b10001, 0b10001, 0b11111, 0b10001, 0b10001, 0b10001]
    } else if c == 'I' {
        seq![0b11111u8, 0b00100, 0b00100, 0b00100, 0b00100, 0b00100, 0b11111]
    } else if c == 'J' {
        seq![0b00111u8, 0b00010, 0b00010, 0b00010, 0b10010, 0b10010, 0b01100]
    } else if c == 'K' {
        seq![0b10001u8, 0b10010, 0b10100, 0b11000, 0b10100, 0b10010, 0b10001]
    } else if c == 'L' {
        seq![0b10000u8, 0b10000, 0b10000, 0b10000, 0b10000, 0b10000, 0b11111]
    } else if c == 'M' {
        seq![0b10001u8, 0b11011, 0b10101, 0b10101, 0b10001, 0b10001, 0b10001]
    } else if c == 'N' {
        seq![0b10001u8, 0b11001, 0b10101, 0b10011, 0b10001, 0b10001, 0b10001]
    } else if c == 'O' {
        seq![0b01110u8, 0b10001, 0b10001, 0b10001, 0b10001, 0b10001, 0b01110]
    } else if c == 'P' {
        seq![0b11110u8, 0b10001, 0b10001, 0b11110, 0b10000, 0b10000, 0b10000]
    } else if c == 'Q' {
        seq![0b01110u8, 0b10001, 0b10001, 0b10001, 0b10101, 0b10010, 0b01101]
    } else if c == 'R' {
        seq![0b11110u8, 0b10001, 0b10001, 0b11110, 0b10100, 0b10010, 0b10001]
    } else if c == 'S' {
        seq![0b01111u8, 0b10000, 0b10000, 0b01110, 0b00001, 0b00001, 0b11110]
    } else if c == 'T' {
        seq![0b11111u8, 0b00100, 0b00100, 0b00100, 0b00100, 0b00100, 0b00100]
    } else if c == 'U' {
        seq![0b10001u8, 0b10001, 0b10001, 0b10001, 0b10001, 0b10001, 0b01110]
    } else if c == 'V' {
        seq![0b10001u8, 0b10001, 0b10001, 0b10001, 0b10001, 0b01010, 0b00100]
    } else if c == 'W' {
        seq![0b10001u8, 0b10001, 0b10001, 0b10101, 0b10101, 0b11011, 0b10001]
    } else if c == 'X' {
        seq![0b10001u8, 0b10001, 0b01010, 0b00100, 0b01010, 0b10001, 0b10001]
    } else if c == 'Y' {
        seq![0b10001u8, 0b10001, 0b01010, 0b00100, 0b00100, 0b00100, 0b00100]
    } else if c == 'Z' {
        seq![0b11111u8, 0b00001, 0b00010, 0b00100, 0b01000, 0b10000, 0b11111]
    } else if c == '-' || c == '\u{2014}' {
        seq![0b00000u8, 0b00000, 0b00000, 0b11111, 0b00000, 0b00000, 0b00000]
    } else if c == '.' {
        seq![0b00000u8, 0b00000, 0b00000, 0b00000, 0b00000, 0b00000, 0b00100]
    } else if c == '\'' {
        seq![0b00100u8, 0b00100, 0b00100, 0b00000, 0b00000, 0b00000, 0b00000]
    } else {
        seq![0u8, 0, 0, 0, 0, 0, 0]
    }
}

/// The seven rows of a character, top row first.
pub fn glyph(ch: char) -> (r: [u8; 7])
    ensures
        r@ == glyph_rows(ch),
{
    let c = ascii_upper(ch);
    let rows: [u8; 7] = if c == 'A' {
            [0b01110, 0b10001, 0b10001, 0b11111, 0b10001, 0b10001, 0b10001]
        } else if c == 'B' {
            [0b11110, 0b10001, 0b10001, 0b11110, 0b10001, 0b10001, 0b11110]
        } else if c == 'C' {
            [0b01110, 0b10001, 0b10000, 0b10000, 0b10000, 0b10001, 0b01110]
        } else if c == 'D' {
            [0b11110, 0b10001, 0b10001, 0b10001, 0b10001, 0b10001, 0b11110]
        } else if c == 'E' {
            [0b11111, 0b10000, 0b10000, 0b11110, 0b10000, 0b10000, 0b11111]
        } else if c == 'F' {
            [0b11111, 0b10000, 0b10000, 0b11110, 0b10000, 0b10000, 0b10000]
        } else if c == 'G' {
            [0b01110, 0b10001, 0b10000, 0b10111, 0b10001, 0b10001, 0b01111]
        } else if c == 'H' {
            [0b10001, 0b10001, 0b10001, 0b11111, 0b10001, 0b10001, 0b10001]
        } else if c == 'I' {
            [0b11111, 0b00100, 0b00100, 0b00100, 0b00100, 0b00100, 0b11111]
        } else if c == 'J' {
            [0b00111, 0b00010, 0b00010, 0b00010, 0b10010, 0b10010, 0b01100]
        } else if c == 'K' {
            [0b10001, 0b10010, 0b10100, 0b11000, 0b10100, 0b10010, 0b10001]
        } else if c == 'L' {
            [0b10000, 0b10000, 0b10000, 0b10000, 0b10000, 0b10000, 0b11111]
        } else if c == 'M' {
            [0b10001, 0b11011, 0b10101, 0b10101, 0b10001, 0b10001, 0b10001]
        } else if c == 'N' {
            [0b10001, 0b11001, 0b10101, 0b10011, 0b10001, 0b10001, 0b10001]
        } else if c == 'O' {
            [0b01110, 0b10001, 0b10001, 0b10001, 0b10001, 0b10001, 0b01110]
        } else if c == 'P' {
            [0b11110, 0b10001, 0b10001, 0b11110, 0b10000, 0b10000, 0b10000]
        } else if c == 'Q' {
            [0b01110, 0b10001, 0b10001, 0b10001, 0b10101, 0b10010, 0b01101]
        } else if c == 'R' {
            [0b11110, 0b10001, 0b10001, 0b11110, 0b10100, 0b10010, 0b10001]
        } else if c == 'S' {
            [0b01111, 0b10000, 0b10000, 0b01110, 0b00001, 0b00001, 0b11110]
        } else if c == 'T' {
            [0b11111, 0b00100, 0b00100, 0b00100, 0b00100, 0b00100, 0b00100]
        } else if c == 'U' {
            [0b10001, 0b10001, 0b10001, 0b10001, 0b10001, 0b10001, 0b01110]
        } else if c == 'V' {
            [0b10001, 0b10001, 0b10001, 0b10001, 0b10001, 0b01010, 0b00100]
        } else if c == 'W' {
            [0b10001, 0b10001, 0b10001, 0b10101, 0b10101, 0b11011, 0b10001]
        } else if c == 'X' {
            [0b10001, 0b10001, 0b01010, 0b00100, 0b01010, 0b10001, 0b10001]
        } else if c == 'Y' {
            [0b10001, 0b10001, 0b01010, 0b00100, 0b00100, 0b00100, 0b00100]
        } else if c == 'Z' {
            [0b11111, 0b00001, 0b00010, 0b00100, 0b01000, 0b10000, 0b11111]
        } else if c == '-' || c == '\u{2014}' {
            [0b00000, 0b00000, 0b00000, 0b11111, 0b00000, 0b00000, 0b00000]
        } else if c == '.' {
            [0b00000, 0b00000, 0b00000, 0b00000, 0b00000, 0b00000, 0b00100]
        } else if c == '\'' {
            [0b00100, 0b00100, 0b00100, 0b00000, 0b00000, 0b00000, 0b00000]
        } else {
            [0, 0, 0, 0, 0, 0, 0]
        };
    assert(rows@ =~= glyph_rows(ch));
    rows
}

/// The width of `n` characters: no gap follows the last one.
pub open spec fn width_of(n: int) -> int {
    if n == 0 {
        0
    } else {
        n * ADVANCE - SCALE
    }
}

/// The width of `msg` in pixels.
pub fn text_width(msg: &str) -> (r: i32)
    requires
        msg@.len() * ADVANCE <= i32::MAX,
    ensures
        r == width_of(msg@.len() as int),
{
    let n: usize = msg.unicode_len();
    if n == 0 {
        0
    } else {
        (n as i32) * ADVANCE - SCALE
    }
}

/// Where `msg` is drawn: centred in the space right of the dot, or at its left
/// end if it is too wide; and vertically centred.
pub fn text_origin(msg: &str) -> (r: (i32, i32))
    requires
        msg@.len() * ADVANCE <= i32::MAX,
    ensures
        ({
            let free = WIDTH - TEXT_LEFT - PAD_RIGHT - width_of(msg@.len() as int);
            r.0 == TEXT_LEFT + if free > 0 {
                free / 2
            } else {
                0
            }
        }),
        r.1 == 21,
{
    let free: i32 = 362 - text_width(msg);
    let x0: i32 = TEXT_LEFT + if free > 0 {
        free / 2
    } else {
        0
    };
    (x0, (56 - GLYPH_H * SCALE) / 2)
}

/// Whether the cell in column `c` (leftmost is 0) of a row is set.
pub open spec fn cell_set(row: u8, c: int) -> bool {
    if c == 0 {
        row as int / 16 % 2 == 1
    } else if c == 1 {
        row as int / 8 % 2 == 1
    } else if c == 2 {
        row as int / 4 % 2 == 1
    } else if c == 3 {
        row as int / 2 % 2 == 1
    } else {
        row as int % 2 == 1
    }
}

/// Whether a pixel belongs to a set cell of `ch`, drawn with its top left corner
/// at `gx`, `gy`.
pub open spec fn glyph_inks(ch: char, gx: int, gy: int, x: int, y: int) -> bool {
    let c = (x - gx) / (SCALE as int);
    let row = (y - gy) / (SCALE as int);
    gx <= x && gy <= y && c < GLYPH_W && row < GLYPH_H && cell_set(glyph_rows(ch)[row], c)
}

/// Whether a pixel belongs to one of the first `n` characters of `msg`, drawn with
/// its top left corner at `x0`, `y0`.
pub open spec fn text_inks(msg: Seq<char>, n: int, x0: int, y0: int, x: int, y: int) -> bool {
    exists|k: int|
        0 <= k < n && #[trigger] glyph_inks(msg[k], x0 + k * ADVANCE, y0, x, y)
}

/// Whether `after` is `before` with colour `col` on the pixels that `inked` names,
/// and unchanged otherwise.
pub open spec fn painted(
    before: Seq<u32>,
    after: Seq<u32>,
    col: u32,
    inked: spec_fn(int, int) -> bool,
) -> bool {
    &&& after.len() == before.len()
    &&& forall|i: int|
        0 <= i < before.len() ==> #[trigger] after[i] == (if inked(
            i % (WIDTH as int),
            i / (WIDTH as int),
        ) {
            col
        } else {
            before[i]
        })
}

/// The word of a colour.
pub open spec fn pack_of(col: Rgb) -> u32 {
    crate::overlay::packed(col) as u32
}

/// Colours the pixel at `x`, `y`, if it is on the toast.
fn put(buf: &mut [u32], x: i32, y: i32, col: Rgb)
    requires
        old(buf)@.len() == WIDTH * HEIGHT,
    ensures
        painted(
            old(buf)@,
            final(buf)@,
            pack_of(col),
            |px: int, py: int| px == x && py == y,
        ),
{
    match pixel_index(x, y, WIDTH, HEIGHT) {
        Some(i) => {
            assert(i as int % (WIDTH as int) == x && i as int / (WIDTH as int) == y);
            buf[i] = pack(col);
        },
        None => {
            assert forall|i: int| 0 <= i < buf@.len() && i % (WIDTH as int) == x && i / (
            WIDTH as int) == y implies #[trigger] buf@[i] == pack_of(col) by {
                assert(0 <= i / (WIDTH as int) < HEIGHT);
            }
        },
    }
}

/// Fills the font cell with its top left corner at `px`, `py`.
fn fill_cell(buf: &mut [u32], px: i32, py: i32, col: Rgb)
    requires
        old(buf)@.len() == WIDTH * HEIGHT,
        px < i32::MAX && py < i32::MAX,
    ensures
        painted(
            old(buf)@,
            final(buf)@,
            pack_of(col),
            |x: int, y: int| px <= x < px + SCALE && py <= y < py + SCALE,
        ),
{
    put(buf, px, py, col);
    put(buf, px + 1, py, col);
    put(buf, px, py + 1, col);
    put(buf, px + 1, py + 1, col);
}

/// Whether a pixel belongs to a cell of the glyph that comes before the one at
/// `row`, `c`, row by row.
spec fn cell_before(gx: int, gy: int, row: int, c: int, x: int, y: int) -> bool {
    let cc = (x - gx) / (SCALE as int);
    let rr = (y - gy) / (SCALE as int);
    rr < row || (rr == row && cc < c)
}

fn is_cell_set(row: u8, c: i32) -> (r: bool)
    requires
        0 <= c < 5,
    ensures
        r == cell_set(row, c as int),
{
    if c == 0 {
        row / 16 % 2 == 1
    } else if c == 1 {
        row / 8 % 2 == 1
    } else if c == 2 {
        row / 4 % 2 == 1
    } else if c == 3 {
        row / 2 % 2 == 1
    } else {
        row % 2 == 1
    }
}

/// Draws one character with its top left corner at `gx`, `gy`.
fn draw_glyph(buf: &mut [u32], gx: i32, gy: i32, ch: char, col: Rgb)
    requires
        old(buf)@.len() == WIDTH * HEIGHT,
        gx + 12 <= i32::MAX && gy + 16 <= i32::MAX,
    ensures
        painted(
            old(buf)@,
            final(buf)@,
            pack_of(col),
            |x: int, y: int| glyph_inks(ch, gx as int, gy as int, x, y),
        ),
{
    let rows = glyph(ch);
    let ghost before = buf@;
    let ghost word = pack_of(col);
    let mut row: i32 = 0;
    while row < GLYPH_H
        invariant
            0 <= row <= GLYPH_H,
            rows@ == glyph_rows(ch),
            buf@.len() == WIDTH * HEIGHT,
            gx + 12 <= i32::MAX && gy + 16 <= i32::MAX,
            word == pack_of(col),
            painted(
                before,
                buf@,
                word,
                |x: int, y: int|
                    glyph_inks(ch, gx as int, gy as int, x, y) && cell_before(
                        gx as int,
                        gy as int,
                        row as int,
                        0,
                        x,
                        y,
                    ),
            ),
        decreases GLYPH_H - row,
    {
        let bits: u8 = rows[row as usize];
        let mut c: i32 = 0;
        while c < GLYPH_W
            invariant
                0 <= row < GLYPH_H,
                0 <= c <= GLYPH_W,
                rows@ == glyph_rows(ch),
                bits == rows@[row as int],
                buf@.len() == WIDTH * HEIGHT,
                gx + 12 <= i32::MAX && gy + 16 <= i32::MAX,
                word == pack_of(col),
                painted(
                    before,
                    buf@,
                    word,
                    |x: int, y: int|
                        glyph_inks(ch, gx as int, gy as int, x, y) && cell_before(
                            gx as int,
                            gy as int,
                            row as int,
                            c as int,
                            x,
                            y,
                        ),
                ),
            decreases GLYPH_W - c,
        {
            let ghost mid = buf@;
            let set = is_cell_set(bits, c);
            if set {
                fill_cell(buf, gx + c * SCALE, gy + row * SCALE, col);
            }
            proof {
                assert forall|i: int| 0 <= i < before.len() implies #[trigger] buf@[i] == (if ({
                    let x = i % (WIDTH as int);
                    let y = i / (WIDTH as int);
                    glyph_inks(ch, gx as int, gy as int, x, y) && cell_before(
                        gx as int,
                        gy as int,
                        row as int,
                        c + 1,
                        x,
                        y,
                    )
                }) {
                    word
                } else {
                    before[i]
                }) by {
                    let x = i % (WIDTH as int);
                    let y = i / (WIDTH as int);
                    let cc = (x - gx) / (SCALE as int);
                    let rr = (y - gy) / (SCALE as int);
                    let here = gx + c * SCALE <= x < gx + c * SCALE + SCALE && gy + row * SCALE
                        <= y < gy + row * SCALE + SCALE;
                    assert(here <==> cc == c && rr == row);
                    assert(mid[i] == mid[i]);
                }
            }
            c = c + 1;
        }
        proof {
            assert forall|i: int| 0 <= i < before.len() implies #[trigger] buf@[i] == (if ({
                let x = i % (WIDTH as int);
                let y = i / (WIDTH as int);
                glyph_inks(ch, gx as int, gy as int, x, y) && cell_before(
                    gx as int,
                    gy as int,
                    row + 1,
                    0,
                    x,
                    y,
                )
            }) {
                word
            } else {
                before[i]
            }) by {
                let x = i % (WIDTH as int);
                let y = i / (WIDTH as int);
            }
        }
        row = row + 1;
    }
}

/// Draws `msg` with its top left corner at `x0`, `y0`. What lies off the toast is
/// cut off.
pub fn draw_text(buf: &mut [u32], x0: i32, y0: i32, msg: &str, col: Rgb)
    requires
        old(buf)@.len() == WIDTH * HEIGHT,
        x0 + msg@.len() * ADVANCE + 12 <= i32::MAX,
        y0 + 16 <= i32::MAX,
    ensures
        painted(
            old(buf)@,
            final(buf)@,
            pack_of(col),
            |x: int, y: int| text_inks(msg@, msg@.len() as int, x0 as int, y0 as int, x, y),
        ),
{
    let v = to_chars(msg);
    let ghost before = buf@;
    let ghost word = pack_of(col);
    let mut k: usize = 0;
    let mut x: i32 = x0;
    while k < v.len()
        invariant
            v@ == msg@,
            x == x0 + k * ADVANCE,
            k <= v@.len(),
            buf@.len() == WIDTH * HEIGHT,
            x0 + msg@.len() * ADVANCE + 12 <= i32::MAX,
            y0 + 16 <= i32::MAX,
            word == pack_of(col),
            painted(
                before,
                buf@,
                word,
                |x: int, y: int| text_inks(msg@, k as int, x0 as int, y0 as int, x, y),
            ),
        decreases v@.len() - k,
    {
        let ghost mid = buf@;
        draw_glyph(buf, x, y0, v[k], col);
        proof {
            assert forall|i: int| 0 <= i < before.len() implies #[trigger] buf@[i] == (if text_inks(
                msg@,
                k + 1,
                x0 as int,
                y0 as int,
                i % (WIDTH as int),
                i / (WIDTH as int),
            ) {
                word
            } else {
                before[i]
            }) by {
                let x = i % (WIDTH as int);
                let y = i / (WIDTH as int);
                assert(mid[i] == mid[i]);
                assert(text_inks(msg@, k + 1, x0 as int, y0 as int, x, y) <==> text_inks(
                    msg@,
                    k as int,
                    x0 as int,
                    y0 as int,
                    x,
                    y,
                ) || glyph_inks(msg@[k as int], x0 + k * ADVANCE, y0 as int, x, y)) by {
                    if text_inks(msg@, k + 1, x0 as int, y0 as int, x, y) {
                        let w = choose|w: int|
                            0 <= w < k + 1 && #[trigger] glyph_inks(
                                msg@[w],
                                x0 + w * ADVANCE,
                                y0 as int,
                                x,
                                y,
                            );
                        if w < k {
                            assert(glyph_inks(msg@[w], x0 + w * ADVANCE, y0 as int, x, y));
                        }
                    }
                }
            }
        }
        k = k + 1;
        x = x + ADVANCE;
    }
}

/// What the toast says.
pub const COPIED: &'static str = "COPIED TO CLIPBOARD \u{2014} PASTE IT";

/// The five cells of a row are the five lower bits of its number, the highest first.
pub proof fn a_row_is_made_of_its_cells(row: u8)
    requires
        row < 32,
    ensures
        row == (if cell_set(row, 0) {
            16int
        } else {
            0
        }) + (if cell_set(row, 1) {
            8int
        } else {
            0
        }) + (if cell_set(row, 2) {
            4int
        } else {
            0
        }) + (if cell_set(row, 3) {
            2int
        } else {
            0
        }) + (if cell_set(row, 4) {
            1int
        } else {
            0
        }),
{
}

/// A glyph has seven rows of five cells and is the same for both cases of a letter.
pub proof fn glyphs_fit_their_box(ch: char)
    ensures
        glyph_rows(ch).len() == 7,
        forall|r: int| 0 <= r < 7 ==> (#[trigger] glyph_rows(ch)[r]) < 32,
        glyph_rows(text::lower_char(ch)) == glyph_rows(ch),
        glyph_rows(text::upper_char(ch)) == glyph_rows(ch),
{
    text::laws::cases_mirror_each_other(ch);
}

/// Every cell of a glyph is two pixels wide and high, in its place, and nothing is
/// drawn outside the glyph's box.
pub proof fn a_cell_is_two_pixels_square(
    ch: char,
    gx: int,
    gy: int,
    c: int,
    r: int,
    i: int,
    j: int,
)
    requires
        0 <= c < 5,
        0 <= r < 7,
        0 <= i < 2,
        0 <= j < 2,
    ensures
        glyph_inks(ch, gx, gy, gx + 2 * c + i, gy + 2 * r + j) <==> cell_set(glyph_rows(ch)[r], c),
        forall|x: int, y: int| #[trigger]
            glyph_inks(ch, gx, gy, x, y) ==> gx <= x < gx + 10 && gy <= y < gy + 14,
{
    assert((2 * c + i) / 2 == c);
    assert((2 * r + j) / 2 == r);
}

/// A text is as wide as its glyphs of ten pixels with two pixels between them.
pub proof fn a_text_is_as_wide_as_its_glyphs(n: int)
    requires
        n >= 0,
    ensures
        n == 0 ==> width_of(n) == 0,
        n > 0 ==> width_of(n) == 10 * n + 2 * (n - 1),
{
}

/// Painting colours the pixels that are inked and no others: the word of the pixel at
/// `x`, `y` is in row `y` of 420 words.
pub proof fn only_ink_is_painted(
    before: Seq<u32>,
    after: Seq<u32>,
    col: u32,
    inked: spec_fn(int, int) -> bool,
    x: int,
    y: int,
)
    requires
        painted(before, after, col, inked),
        0 <= x < 420,
        0 <= y,
        420 * y + x < before.len(),
    ensures
        after.len() == before.len(),
        inked(x, y) ==> after[420 * y + x] == col,
        !inked(x, y) ==> after[420 * y + x] == before[420 * y + x],
{
    let i = 420 * y + x;
    assert(i % 420 == x && i / 420 == y);
    assert(after[i] == after[i]);
}

/// The glyphs of a text stand side by side, twelve pixels apart, none left out.
pub proof fn glyphs_stand_side_by_side(msg: Seq<char>, k: int, x0: int, y0: int, x: int, y: int)
    requires
        0 <= k < msg.len(),
    ensures
        glyph_inks(msg[k], x0 + 12 * k, y0, x, y) ==> text_inks(
            msg,
            msg.len() as int,
            x0,
            y0,
            x,
            y,
        ),
        x0 + 12 * k <= x < x0 + 12 * (k + 1) && text_inks(msg, msg.len() as int, x0, y0, x, y)
            ==> glyph_inks(msg[k], x0 + 12 * k, y0, x, y),
        text_inks(msg, msg.len() as int, x0, y0, x, y) ==> x0 <= x < x0 + 12 * msg.len() && y0 <= y
            < y0 + 14,
{
    if glyph_inks(msg[k], x0 + 12 * k, y0, x, y) {
        assert(glyph_inks(msg[k], x0 + k * ADVANCE, y0, x, y));
    }
    if text_inks(msg, msg.len() as int, x0, y0, x, y) {
        let j = choose|j: int|
            0 <= j < msg.len() && #[trigger] glyph_inks(msg[j], x0 + j * ADVANCE, y0, x, y);
        a_cell_is_two_pixels_square(msg[j], x0 + j * ADVANCE, y0, 0, 0, 0, 0);
        assert(x0 + 12 * j <= x < x0 + 12 * j + 10);
    }
}

/// The word of a colour is its packed number.
pub proof fn words_hold_their_colour(col: Rgb)
    ensures
        pack_of(col) == 65536 * col.0 + 256 * col.1 + col.2,
{
}

/// Whether a glyph is its own mirror image, left to right.
pub open spec fn is_upright(ch: char) -> bool {
    forall|r: int, c: int|
        0 <= r < 7 && 0 <= c < 5 ==> (#[trigger] cell_set(glyph_rows(ch)[r], c) <==> cell_set(
            glyph_rows(ch)[r],
            4 - c,
        ))
}

/// Whether a glyph is its own mirror image, top to bottom.
pub open spec fn is_level(ch: char) -> bool {
    forall|r: int| 0 <= r < 7 ==> #[trigger] glyph_rows(ch)[r] == glyph_rows(ch)[6 - r]
}

/// The letters that are symmetric in print are symmetric here.
pub proof fn symmetric_letters_are_symmetric()
    ensures
        is_upright('A') && is_upright('H') && is_upright('I') && is_upright('M') && is_upright('O')
            && is_upright('T') && is_upright('U') && is_upright('V') && is_upright('W')
            && is_upright('X') && is_upright('Y'),
        is_level('B') && is_level('C') && is_level('D') && is_level('E') && is_level('H')
            && is_level('I') && is_level('K') && is_level('O') && is_level('X'),
{
}

} // verus!
