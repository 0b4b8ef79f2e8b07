//! The recording pill, and what all the small overlay windows share: colours,
//! pixel addressing and where a window is placed.

use std::collections::VecDeque;

use vstd::prelude::*;

verus! {

pub const WIDTH: u32 = 340;

pub const HEIGHT: u32 = 72;

/// Distance of the pill from the bottom of the screen, in logical pixels.
pub const MARGIN: u32 = 40;

/// Left end of the level meter.
pub const METER_X0: i32 = 56;

/// Right end of the level meter.
pub const METER_X1: i32 = 322;

pub const BAR_W: i32 = 3;

pub const BAR_GAP: i32 = 2;

/// How many bars the meter has room for, and so how many levels are kept.
pub const NUM_BARS: usize = 53;

/// Which part of a dictation the pill shows.
#[derive(Debug, Clone, Copy, PartialEq, Eq, Structural)]
pub enum Phase {
    /// The microphone is open: show its level.
    Recording,
    /// The clip is being transcribed: show that work is under way.
    Processing,
}

/// Red, green and blue.
pub type Rgb = (u8, u8, u8);

/// A colour as one word: red in bits 16 to 23, green in 8 to 15, blue in 0 to 7.
pub open spec fn packed(c: Rgb) -> int {
    65536 * c.0 + 256 * c.1 + c.2
}

/// A colour as one word.
pub fn pack(c: Rgb) -> (r: u32)
    ensures
        r == packed(c),
{
    (c.0 as u32) * 65536 + (c.1 as u32) * 256 + (c.2 as u32)
}

/// No two colours have the same word.
pub proof fn pack_is_injective(a: Rgb, b: Rgb)
    requires
        packed(a) == packed(b),
    ensures
        a == b,
{
}

/// The place of the pixel at `x`, `y` in a buffer of `w` by `h`, row by row;
/// `None` outside of it.
pub fn pixel_index(x: i32, y: i32, w: u32, h: u32) -> (r: Option<usize>)
    requires
        w * h <= u32::MAX,
    ensures
        r is Some <==> 0 <= x < w && 0 <= y < h,
        r matches Some(i) ==> i == y * w + x && i < w * h,
{
    if x < 0 || y < 0 || x as i64 >= w as i64 || y as i64 >= h as i64 {
        return None;
    }
    proof {
        assert(y * w + x < w * h) by (nonlinear_arith)
            requires
                0 <= x < w,
                0 <= y < h,
        ;
    }
    assert(0 <= y * w) by (nonlinear_arith)
        requires
            0 <= y,
            0 <= w,
    ;
    Some(((y as u32) * w + (x as u32)) as usize)
}

/// Half of `n`, rounded towards zero.
pub open spec fn half(n: int) -> int {
    if n >= 0 {
        n / 2
    } else {
        -((-n) / 2)
    }
}

/// Where an overlay window goes: at the bottom centre of its monitor, `margin`
/// above the edge. All lengths are physical pixels, and the monitor's own origin
/// counts.
pub fn bottom_centre(
    origin: (i32, i32),
    monitor: (u32, u32),
    window: (i32, i32),
    margin: i32,
) -> (r: (i64, i64))
    ensures
        r.0 == origin.0 + half(monitor.0 - window.0),
        r.1 == origin.1 + monitor.1 - window.1 - margin,
{
    let free: i64 = monitor.0 as i64 - window.0 as i64;
    let left: i64 = if free >= 0 {
        free / 2
    } else {
        -((-free) / 2)
    };
    (origin.0 as i64 + left, origin.1 as i64 + monitor.1 as i64 - window.1 as i64 - margin as i64)
}

/// The most recent levels, oldest first.
pub struct LevelHistory<T> {
    levels: VecDeque<T>,
}

impl<T> View for LevelHistory<T> {
    type V = Seq<T>;

    closed spec fn view(&self) -> Seq<T> {
        self.levels@
    }
}

/// The last `n` elements of `s`, or all if there are fewer.
pub open spec fn last_of<T>(s: Seq<T>, n: int) -> Seq<T> {
    if s.len() <= n {
        s
    } else {
        s.skip(s.len() - n)
    }
}

impl<T> LevelHistory<T> {
    /// No levels.
    pub fn new() -> (r: LevelHistory<T>)
        ensures
            r@.len() == 0,
    {
        LevelHistory { levels: VecDeque::new() }
    }

    /// Adds the newest level; the oldest ones that have no bar any more are gone.
    pub fn push(&mut self, level: T)
        requires
            old(self)@.len() <= NUM_BARS,
        ensures
            final(self)@ == last_of(old(self)@.push(level), NUM_BARS as int),
            final(self)@.len() <= NUM_BARS,
            final(self)@.last() == level,
    {
        let ghost all = self.levels@.push(level);
        self.levels.push_back(level);
        assert(self.levels@ =~= last_of(all, all.len() as int));
        while self.levels.len() > NUM_BARS
            invariant
                0 < self.levels@.len() <= all.len(),
                all.len() <= NUM_BARS + 1,
                self.levels@ == last_of(all, self.levels@.len() as int),
                all.len() > NUM_BARS ==> self.levels@.len() >= NUM_BARS,
                all.len() <= NUM_BARS ==> self.levels@ == all,
            decreases self.levels@.len(),
        {
            let ghost before = self.levels@;
            let _ = self.levels.pop_front();
            assert(self.levels@ =~= before.skip(1));
            assert(self.levels@ =~= last_of(all, self.levels@.len() as int));
        }
    }

    /// How many levels there are.
    pub fn len(&self) -> (r: usize)
        ensures
            r == self@.len(),
    {
        self.levels.len()
    }

    /// The level at `i`, oldest first.
    pub fn get(&self, i: usize) -> (r: Option<&T>)
        ensures
            match r {
                Some(l) => i < self@.len() && *l == self@[i as int],
                None => i >= self@.len(),
            },
    {
        if i < self.levels.len() {
            Some(&self.levels[i])
        } else {
            None
        }
    }
}

/// The left edge of the bar for level `i` of `n`: the newest level is at the
/// right end, older ones follow to the left. `None` for a bar that would stick
/// out of the meter.
pub fn bar_left(i: usize, n: usize) -> (r: Option<i32>)
    requires
        i < n,
    ensures
        ({
            let x = METER_X1 - BAR_W - (n - 1 - i) * (BAR_W + BAR_GAP);
            match r {
                Some(v) => v == x && x >= METER_X0,
                None => x < METER_X0,
            }
        }),
{
    let steps: usize = n - 1 - i;
    if steps > 52 {
        None
    } else {
        Some(METER_X1 - BAR_W - (steps as i32) * (BAR_W + BAR_GAP))
    }
}

/// Every level that is kept has a bar in the meter, and there is no room for
/// another.
pub proof fn history_fills_the_meter(i: int, n: int)
    requires
        0 <= i < n <= NUM_BARS,
    ensures
        METER_X0 <= METER_X1 - BAR_W - (n - 1 - i) * (BAR_W + BAR_GAP) <= METER_X1 - BAR_W,
        METER_X1 - BAR_W - NUM_BARS * (BAR_W + BAR_GAP) < METER_X0,
{
}

/// A packed colour holds red, green and blue in its three bytes, in this order.
pub proof fn a_packed_colour_has_its_bytes(c: Rgb)
    ensures
        packed(c) / 65536 == c.0,
        packed(c) / 256 % 256 == c.1,
        packed(c) % 256 == c.2,
        0 <= packed(c) < 0x100_0000,
{
}

/// Half of a number is rounded towards zero, and the halves of opposite numbers are
/// opposite.
pub proof fn halves_round_towards_zero(n: int)
    ensures
        half(2 * n) == n,
        n >= 0 ==> half(2 * n + 1) == n,
        half(-n) == -half(n),
{
}

/// The last entries of a list are its end: as many as were asked for, or all of it.
pub proof fn the_last_are_the_end<T>(s: Seq<T>, n: int)
    requires
        n >= 0,
    ensures
        last_of(s, n).is_suffix_of(s),
        last_of(s, n).len() == (if s.len() <= n {
            s.len() as int
        } else {
            n
        }),
{
    let l = last_of(s, n);
    assert(l =~= s.subrange(s.len() - l.len(), s.len() as int));
}

} // verus!
