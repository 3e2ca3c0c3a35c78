use vstd::prelude::*;
use crate::components::Vec2Bits;

verus! {

/// One of the four directions a sprite can face.
#[derive(Clone, Copy, Debug, PartialEq, Eq, Structural)]
pub enum Direction {
    Left,
    Right,
    Up,
    Down,
}

/// The bit pattern of `|f|`: the float with its sign bit cleared.
pub open spec fn magnitude_bits(bits: u32) -> nat {
    (bits % 0x8000_0000) as nat
}

/// Whether the float is a NaN: all exponent bits set and a nonzero fraction.
pub open spec fn is_nan_bits(bits: u32) -> bool {
    magnitude_bits(bits) > 0x7f80_0000
}

/// Whether the float's sign bit is set (true of `-0.0` too).
pub open spec fn sign_negative_bits(bits: u32) -> bool {
    bits >= 0x8000_0000
}

/// `|a| > |b|` on floats: false when either is a NaN; otherwise the order of
/// non-negative floats is the order of their bit patterns.
pub open spec fn abs_greater(a: u32, b: u32) -> bool {
    !is_nan_bits(a) && !is_nan_bits(b) && magnitude_bits(a) > magnitude_bits(b)
}

/// The direction a vector points to: Left or Right, by the sign of x, when
/// its x component is strictly larger in magnitude; Up when its y component is
/// strictly larger in magnitude and negative; Down otherwise, which covers a
/// dominant non-negative y, equal magnitudes and the zero vector.
pub open spec fn direction_of(v: Vec2Bits) -> Direction {
    if abs_greater(v.x, v.y) {
        if sign_negative_bits(v.x) {
            Direction::Left
        } else {
            Direction::Right
        }
    } else if abs_greater(v.y, v.x) && sign_negative_bits(v.y) {
        Direction::Up
    } else {
        Direction::Down
    }
}

/// The direction that vector `v` points to (see `direction_of`).
pub fn vec2_to_direction(v: Vec2Bits) -> (d: Direction)
    ensures
        d == direction_of(v),
{
    let mx: u32 = v.x % 0x8000_0000;
    let my: u32 = v.y % 0x8000_0000;
    let no_nan = mx <= 0x7f80_0000 && my <= 0x7f80_0000;
    if no_nan && mx > my {
        if v.x >= 0x8000_0000 {
            Direction::Left
        } else {
            Direction::Right
        }
    } else if no_nan && my > mx && v.y >= 0x8000_0000 {
        Direction::Up
    } else {
        Direction::Down
    }
}

/// The float with its sign flipped (`-f`).
pub open spec fn negated_bits(bits: u32) -> u32 {
    if bits >= 0x8000_0000 {
        (bits - 0x8000_0000) as u32
    } else {
        (bits + 0x8000_0000) as u32
    }
}

/// The direction seen in a mirror that swaps left and right.
pub open spec fn mirrored_horizontally(d: Direction) -> Direction {
    match d {
        Direction::Left => Direction::Right,
        Direction::Right => Direction::Left,
        other => other,
    }
}

/// The direction seen in a mirror that swaps up and down.
pub open spec fn mirrored_vertically(d: Direction) -> Direction {
    match d {
        Direction::Up => Direction::Down,
        Direction::Down => Direction::Up,
        other => other,
    }
}

/// Negating the x component of a vector mirrors its direction left to right.
pub proof fn lemma_negate_x_mirrors(v: Vec2Bits)
    ensures
        direction_of(Vec2Bits { x: negated_bits(v.x), y: v.y }) == mirrored_horizontally(
            direction_of(v),
        ),
{
}

/// Negating the y component of a vector whose y component dominates mirrors
/// its direction top to bottom. (Where y does not dominate, the direction does
/// not depend on the sign of y.)
pub proof fn lemma_negate_y_mirrors(v: Vec2Bits)
    requires
        abs_greater(v.y, v.x),
    ensures
        direction_of(Vec2Bits { x: v.x, y: negated_bits(v.y) }) == mirrored_vertically(
            direction_of(v),
        ),
{
}

/// The sign of y matters only where y dominates: negating y leaves the
/// direction of any other vector unchanged.
pub proof fn lemma_negate_y_without_dominance(v: Vec2Bits)
    requires
        !abs_greater(v.y, v.x),
    ensures
        direction_of(Vec2Bits { x: v.x, y: negated_bits(v.y) }) == direction_of(v),
{
}

/// What the facing direction means, in terms of the raw bits of the two
/// components (sign bit 31; magnitude the low 31 bits; a NaN has a magnitude
/// above that of infinity):
/// - it is Left or Right exactly when neither component is a NaN and the
///   magnitude of x is strictly the larger, and then Left exactly when x is
///   negative;
/// - it is Up exactly when neither component is a NaN, the magnitude of y is
///   strictly the larger and y is negative;
/// - in every other case it is Down; in particular two non-NaN components of
///   equal magnitude always face Down, whatever their signs.
pub proof fn lemma_direction_characterized(v: Vec2Bits)
    ensures
        (direction_of(v) == Direction::Left || direction_of(v) == Direction::Right) <==> (v.x
            % 0x8000_0000 <= 0x7f80_0000 && v.y % 0x8000_0000 <= 0x7f80_0000 && v.x % 0x8000_0000
            > v.y % 0x8000_0000),
        direction_of(v) == Direction::Left <==> (v.x % 0x8000_0000 <= 0x7f80_0000 && v.y
            % 0x8000_0000 <= 0x7f80_0000 && v.x % 0x8000_0000 > v.y % 0x8000_0000 && v.x
            >= 0x8000_0000),
        direction_of(v) == Direction::Up <==> (v.x % 0x8000_0000 <= 0x7f80_0000 && v.y
            % 0x8000_0000 <= 0x7f80_0000 && v.y % 0x8000_0000 > v.x % 0x8000_0000 && v.y
            >= 0x8000_0000),
        (v.x % 0x8000_0000 == v.y % 0x8000_0000) ==> direction_of(v) == Direction::Down,
{
}

} // verus!
