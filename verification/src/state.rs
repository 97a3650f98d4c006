//! The global game-state machine and the per-process run state shared by
//! every system.

use vstd::prelude::*;

verus! {

/// The closed set of top-level game states. Exactly one is current at any
/// time; transitions are requested by the input system and committed by the
/// host's state-transition driver.
#[derive(Clone, Copy, PartialEq, Eq, Structural, Debug)]
pub enum GameState {
    StartMenu,
    Game,
    Pause,
    GameOver,
}

/// An opaque handle to an entity in the host's arena: an index plus a
/// generation, so that a stale handle to a despawned slot can be told apart
/// from a live one.
#[derive(Clone, Copy, PartialEq, Eq, Structural, Debug, Hash)]
pub struct Entity {
    pub index: u32,
    pub generation: u32,
}

/// Process-wide run state: the current game state, a pending transition
/// request, and the handle of the player ship entity.
///
/// `current` is written only by the host's transition driver, which commits
/// `next` into it and clears `next`; `next` is written by the input system;
/// `player` is written once by the spawn system.
#[derive(Clone, Debug)]
pub struct RunState {
    pub current: Option<GameState>,
    pub next: Option<GameState>,
    pub player: Option<Entity>,
}

impl RunState {
    /// The run state at process start: no state entered yet, no transition
    /// pending, no player spawned.
    pub fn new() -> (r: RunState)
        ensures
            r.current is None,
            r.next is None,
            r.player is None,
    {
        RunState { current: None, next: None, player: None }
    }

    /// Whether the current state is exactly `s`.
    pub fn is_in(&self, s: GameState) -> (r: bool)
        ensures
            r == (self.current == Some(s)),
    {
        match self.current {
            Some(c) => c == s,
            None => false,
        }
    }
}

} // verus!
