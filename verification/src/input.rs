//! Keyboard input sampled once per tick, with explicit edge detection:
//! "just pressed" is computed by comparing the current tick's key set with
//! the previous tick's, never inferred from a single snapshot.

use vstd::prelude::*;

verus! {

/// The fixed set of keys the ship control core reads.
#[derive(Clone, Copy, PartialEq, Eq, Structural, Debug)]
pub enum Key {
    Thrust,
    TurnLeft,
    TurnRight,
    Fire,
    Confirm,
    Cancel,
}

/// Which of the control keys are held down during one tick.
#[derive(Clone, Copy, PartialEq, Eq, Structural, Debug)]
pub struct Keys {
    pub thrust: bool,
    pub turn_left: bool,
    pub turn_right: bool,
    pub fire: bool,
    pub confirm: bool,
    pub cancel: bool,
}

impl Keys {
    /// Whether `k` is held in this key set.
    pub open spec fn has(self, k: Key) -> bool {
        match k {
            Key::Thrust => self.thrust,
            Key::TurnLeft => self.turn_left,
            Key::TurnRight => self.turn_right,
            Key::Fire => self.fire,
            Key::Confirm => self.confirm,
            Key::Cancel => self.cancel,
        }
    }

    /// A key set with nothing held.
    pub fn released() -> (r: Keys)
        ensures
            r == (Keys {
                thrust: false,
                turn_left: false,
                turn_right: false,
                fire: false,
                confirm: false,
                cancel: false,
            }),
            forall|k: Key| !r.has(k),
    {
        Keys {
            thrust: false,
            turn_left: false,
            turn_right: false,
            fire: false,
            confirm: false,
            cancel: false,
        }
    }
}

/// Two consecutive key samples: the keys held this tick and the keys that
/// were held the tick before, which together decide "just pressed".
#[derive(Clone, Copy, PartialEq, Eq, Structural, Debug)]
pub struct InputState {
    pub held: Keys,
    pub prev: Keys,
}

impl InputState {
    /// The input state after one more sample `keys` is taken: the old
    /// current sample becomes the previous one.
    pub open spec fn spec_polled(self, keys: Keys) -> InputState {
        InputState { held: keys, prev: self.held }
    }

    /// Whether `k` is held this tick.
    pub open spec fn spec_pressed(self, k: Key) -> bool {
        self.held.has(k)
    }

    /// Whether `k` went from released to held on this tick.
    pub open spec fn spec_just_pressed(self, k: Key) -> bool {
        self.held.has(k) && !self.prev.has(k)
    }

    /// The input state at process start: nothing held on either tick.
    pub fn new() -> (r: InputState)
        ensures
            r.held == (Keys {
                thrust: false,
                turn_left: false,
                turn_right: false,
                fire: false,
                confirm: false,
                cancel: false,
            }),
            r.prev == r.held,
            forall|k: Key| !r.spec_pressed(k),
            forall|k: Key| !r.spec_just_pressed(k),
    {
        InputState { held: Keys::released(), prev: Keys::released() }
    }

    /// Takes the next per-tick sample of the keyboard.
    pub fn poll(&mut self, keys: Keys)
        ensures
            *final(self) == old(self).spec_polled(keys),
    {
        self.prev = self.held;
        self.held = keys;
    }

    /// Whether `k` is held this tick (level-triggered).
    pub fn pressed(&self, k: Key) -> (r: bool)
        ensures
            r == self.spec_pressed(k),
    {
        match k {
            Key::Thrust => self.held.thrust,
            Key::TurnLeft => self.held.turn_left,
            Key::TurnRight => self.held.turn_right,
            Key::Fire => self.held.fire,
            Key::Confirm => self.held.confirm,
            Key::Cancel => self.held.cancel,
        }
    }

    /// Whether `k` was pressed fresh on this tick (edge-triggered): held
    /// now, released on the previous tick.
    pub fn just_pressed(&self, k: Key) -> (r: bool)
        ensures
            r == self.spec_just_pressed(k),
    {
        let now = self.pressed(k);
        let before = match k {
            Key::Thrust => self.prev.thrust,
            Key::TurnLeft => self.prev.turn_left,
            Key::TurnRight => self.prev.turn_right,
            Key::Fire => self.prev.fire,
            Key::Confirm => self.prev.confirm,
            Key::Cancel => self.prev.cancel,
        };
        now && !before
    }
}

/// A key that stays held over consecutive polls registers as just-pressed
/// at most once: on the first of those polls, and there only if it was not
/// already held before; on every later poll it does not register at all.
pub proof fn lemma_held_key_edge_once(start: InputState, first: Keys, second: Keys, k: Key)
    requires
        first.has(k),
        second.has(k),
    ensures
        start.spec_polled(first).spec_just_pressed(k) == !start.held.has(k),
        !start.spec_polled(first).spec_polled(second).spec_just_pressed(k),
{
}

} // verus!
