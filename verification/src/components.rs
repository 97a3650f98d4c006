//! The components attached to the player ship entity, modelled over plain
//! integers. Lengths, speeds and forces are carried in thousandths
//! (milli-units), so the fixed tunables of the ship are exact; the host
//! divides by one thousand where its physics engine wants a real number.

use crate::state::GameState;
use vstd::prelude::*;

verus! {

/// Torque impulse per input tick when turning, in milli-units (0.3).
pub const SHIP_ROTATION_SPEED_MILLI: u32 = 300;

/// Force magnitude per input tick when thrusting, in milli-units (60.0).
pub const SHIP_THRUST_MILLI: u32 = 60000;

/// Hit points of a freshly spawned ship.
pub const SHIP_LIFE: u32 = 1;

/// Radius of the ship's circular collision shape, in milli-units (1.0).
pub const SHIP_COLLIDER_RADIUS_MILLI: u32 = 1000;

/// Depth at which the ship sprite is placed, in milli-units (-5.0).
pub const SHIP_DEPTH_MILLI: i32 = -5000;

/// Numerator of the ship sprite's scale factor (1/37).
pub const SHIP_SCALE_NUM: u32 = 1;

/// Denominator of the ship sprite's scale factor (1/37).
pub const SHIP_SCALE_DEN: u32 = 37;

/// The player ship descriptor: its control tunables and hit points.
#[derive(Clone, Copy, PartialEq, Eq, Structural, Debug)]
pub struct Ship {
    /// Torque impulse applied per input tick when a turn key is held, in
    /// milli-units.
    pub rotation_speed_milli: u32,
    /// Force magnitude applied per input tick when the thrust key is held,
    /// in milli-units.
    pub thrust_milli: u32,
    /// Remaining hit points; acting on zero is the host's responsibility.
    pub life: u32,
}

/// Visual placement of an entity: a translation and a uniform scale, the
/// scale kept as an exact fraction.
#[derive(Clone, Copy, PartialEq, Eq, Structural, Debug)]
pub struct Placement {
    pub x_milli: i32,
    pub y_milli: i32,
    pub z_milli: i32,
    pub scale_num: u32,
    pub scale_den: u32,
}

/// Description of the rigid body the host's physics engine builds for an
/// entity.
#[derive(Clone, Copy, PartialEq, Eq, Structural, Debug)]
pub struct BodyDesc {
    /// A dynamic body moves under forces; a non-dynamic one is fixed.
    pub dynamic: bool,
    /// Radius of the circular collision shape, in milli-units.
    pub collider_radius_milli: u32,
}

/// The set of game states during which an entity is retained; on entering
/// any other state the host's lifecycle driver despawns it.
#[derive(Clone, Debug)]
pub struct ForStates {
    pub states: Vec<GameState>,
}

impl ForStates {
    /// Whether the entity is retained while the game is in state `s`.
    pub open spec fn spec_retained_in(self, s: GameState) -> bool {
        self.states@.contains(s)
    }

    /// Whether the entity is retained while the game is in state `s`.
    pub fn retained_in(&self, s: GameState) -> (r: bool)
        ensures
            r == self.spec_retained_in(s),
    {
        let mut i: usize = 0;
        while i < self.states.len()
            invariant
                i <= self.states@.len(),
                forall|j: int| 0 <= j < i ==> self.states@[j] != s,
            decreases self.states@.len() - i,
        {
            if self.states[i] == s {
                return true;
            }
            i += 1;
        }
        false
    }
}

} // verus!
