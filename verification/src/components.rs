use vstd::prelude::*;
use crate::tick::Tick;

verus! {

/// A two-dimensional vector of single-precision floats, each component held
/// as its IEEE-754 bit pattern (what `f32::to_bits` gives). The library never
/// does float arithmetic: it copies vectors and reads their signs and
/// magnitudes, which the bit patterns determine exactly.
#[derive(Clone, Copy, Debug, PartialEq, Eq, Structural)]
pub struct Vec2Bits {
    pub x: u32,
    pub y: u32,
}

impl Vec2Bits {
    /// The vector `(0.0, 0.0)`: both components are the bit pattern 0.
    pub open spec fn spec_zero() -> Vec2Bits {
        Vec2Bits { x: 0, y: 0 }
    }

    /// The vector `(0.0, 0.0)`.
    pub fn zero() -> (v: Vec2Bits)
        ensures
            v == Vec2Bits::spec_zero(),
    {
        Vec2Bits { x: 0, y: 0 }
    }
}

/// Where a player stands in the world.
#[derive(Clone, Copy, Debug, PartialEq, Eq, Structural)]
pub struct Position(pub Vec2Bits);

/// The direction a player faces, the last (clamped) movement input.
#[derive(Clone, Copy, Debug, PartialEq, Eq, Structural)]
pub struct FacingDirection(pub Vec2Bits);

/// An attack in progress: it started at `start_tick` and ends at `end_tick`,
/// at `position`, aimed along `direction`.
#[derive(Clone, Copy, Debug, PartialEq, Eq, Structural)]
pub struct Ability {
    pub start_tick: Tick,
    pub end_tick: Tick,
    pub position: Vec2Bits,
    pub direction: Vec2Bits,
}

/// The network identity of the client that owns a player.
#[derive(Clone, Copy, Debug, PartialEq, Eq, Structural)]
pub struct PlayerId(pub u64);

/// The actions a player can trigger.
#[derive(Clone, Copy, Debug, PartialEq, Eq, Hash, Structural)]
pub enum PlayerActions {
    Move,
    Slash,
}

/// Which actions are held down during the current tick.
#[derive(Clone, Copy, Debug, PartialEq, Eq, Structural)]
pub struct PressedActions {
    pub move_pressed: bool,
    pub slash_pressed: bool,
}

impl PressedActions {
    pub open spec fn spec_pressed(self, action: PlayerActions) -> bool {
        match action {
            PlayerActions::Move => self.move_pressed,
            PlayerActions::Slash => self.slash_pressed,
        }
    }

    /// Whether `action` is held down.
    pub fn pressed(&self, action: PlayerActions) -> (b: bool)
        ensures
            b == self.spec_pressed(action),
    {
        match action {
            PlayerActions::Move => self.move_pressed,
            PlayerActions::Slash => self.slash_pressed,
        }
    }
}

} // verus!
