//! The animated tray icons: their size and their frames.

use vstd::prelude::*;

verus! {

/// Edge length of an icon, in pixels.
pub const SIZE: u32 = 32;

/// Frames of one round of an animation.
pub const FRAMES: usize = 12;

/// The frame after `frame`.
pub fn next_frame(frame: usize) -> (r: usize)
    ensures
        r == (frame + 1) % (FRAMES as int),
        r < FRAMES,
{
    let f: usize = frame % FRAMES;
    if f + 1 == FRAMES {
        0
    } else {
        f + 1
    }
}

/// A transparent icon: four bytes per pixel, all zero.
pub fn blank() -> (r: Vec<u8>)
    ensures
        r@ == Seq::new((SIZE * SIZE * 4) as nat, |i: int| 0u8),
{
    let mut r: Vec<u8> = Vec::new();
    let n: usize = (SIZE * SIZE * 4) as usize;
    let mut i: usize = 0;
    while i < n
        invariant
            n == SIZE * SIZE * 4,
            i <= n,
            r@ == Seq::new(i as nat, |k: int| 0u8),
        decreases n - i,
    {
        r.push(0);
        i = i + 1;
        assert(r@ =~= Seq::new(i as nat, |k: int| 0u8));
    }
    r
}

/// Where the four bytes of the pixel at `x`, `y` begin; `None` outside the icon.
pub fn pixel_offset(x: i32, y: i32) -> (r: Option<usize>)
    ensures
        r is Some <==> 0 <= x < SIZE && 0 <= y < SIZE,
        r matches Some(i) ==> i == (y * SIZE + x) * 4 && i + 4 <= SIZE * SIZE * 4,
{
    if x < 0 || y < 0 || x >= 32 || y >= 32 {
        return None;
    }
    Some(((y * 32 + x) * 4) as usize)
}

} // verus!
