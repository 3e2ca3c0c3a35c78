use vstd::prelude::*;

verus! {

/// The number of distinct tick values: ticks are 16-bit and wrap around.
pub const TICK_MODULUS: u32 = 65536;

/// A simulation tick. The counter wraps around after `u16::MAX`.
#[derive(Clone, Copy, Debug, PartialEq, Eq, Structural)]
pub struct Tick(pub u16);

/// `a + b` on the 16-bit tick counter.
pub open spec fn wrapping_sum(a: u16, b: u16) -> u16 {
    ((a + b) % 65536) as u16
}

/// The signed distance from `earlier` to `later` on the 16-bit circle,
/// taken in `-32768..=32767`.
pub open spec fn wrapping_distance(later: u16, earlier: u16) -> int {
    let d = (later - earlier) % 65536;
    if d >= 32768 {
        d - 65536
    } else {
        d
    }
}

impl Tick {
    /// The tick `rhs` ticks after `self`, wrapping around.
    pub fn add_ticks(self, rhs: Tick) -> (sum: Tick)
        ensures
            sum.0 == wrapping_sum(self.0, rhs.0),
            sum.0 as int == (self.0 as int + rhs.0 as int) % 65536,
    {
        let s: u32 = self.0 as u32 + rhs.0 as u32;
        if s >= TICK_MODULUS {
            Tick((s - TICK_MODULUS) as u16)
        } else {
            Tick(s as u16)
        }
    }

    /// How many ticks `self` lies after `earlier`, as a wrapping signed
    /// difference: negative when `self` is (at most half a circle) before.
    pub fn ticks_since(self, earlier: Tick) -> (d: i16)
        ensures
            d as int == wrapping_distance(self.0, earlier.0),
            (earlier.0 as int + d as int) % 65536 == self.0 as int,
    {
        let d: u32 = if self.0 >= earlier.0 {
            (self.0 - earlier.0) as u32
        } else {
            TICK_MODULUS - (earlier.0 - self.0) as u32
        };
        if d >= 32768 {
            (d as i32 - 65536) as i16
        } else {
            d as i16
        }
    }
}

/// Advancing a tick by `d` ticks and measuring the distance back gives `d`,
/// for every `d` that fits in the positive half of the circle.
pub proof fn lemma_distance_after_advance(start: u16, d: u16)
    requires
        d <= 32767,
    ensures
        wrapping_distance(wrapping_sum(start, d), start) == d as int,
{
}

/// Tick addition is addition modulo 65536, for every pair of ticks: the
/// sum is the remainder of the plain sum, so it never depends on where on the
/// circle the ticks lie.
pub proof fn lemma_sum_is_modular_addition(a: u16, b: u16)
    ensures
        wrapping_sum(a, b) as int == (a as int + b as int) % 65536,
        wrapping_sum(a, b) == wrapping_sum(b, a),
        wrapping_sum(a, 0) == a,
        (a as int + b as int) < 65536 ==> wrapping_sum(a, b) as int == a as int + b as int,
{
}

/// Tick addition is associative: advancing by `b` then by `c` is advancing by
/// their sum.
pub proof fn lemma_sum_associative(a: u16, b: u16, c: u16)
    ensures
        wrapping_sum(wrapping_sum(a, b), c) == wrapping_sum(a, wrapping_sum(b, c)),
{
    let ab = (a as int + b as int) % 65536;
    let bc = (b as int + c as int) % 65536;
    assert((ab + c) % 65536 == (a as int + bc) % 65536) by (nonlinear_arith)
        requires
            ab == (a as int + b as int) % 65536,
            bc == (b as int + c as int) % 65536;
}

/// The distance from `earlier` to `later` is the unique number in
/// `-32768..=32767` that, added to `earlier` modulo 65536, gives `later`.
pub proof fn lemma_distance_characterized(later: u16, earlier: u16, d: int)
    ensures
        -32768 <= wrapping_distance(later, earlier) <= 32767,
        (earlier as int + wrapping_distance(later, earlier)) % 65536 == later as int,
        (-32768 <= d <= 32767 && (earlier as int + d) % 65536 == later as int) ==> d
            == wrapping_distance(later, earlier),
{
    let w = wrapping_distance(later, earlier);
    if -32768 <= d <= 32767 && (earlier as int + d) % 65536 == later as int {
        assert(((earlier as int + d) - (earlier as int + w)) % 65536 == 0);
        assert(-65536 < d - w < 65536);
    }
}

} // verus!
