//! The three per-tick systems that drive the player ship: spawning the ship
//! entity, damping its velocity, and turning keyboard input into physics
//! commands, transition requests and exit requests.
//!
//! The host engine owns the floating-point rigid-body store. Each system
//! here receives what the host's lookups reported and returns exact integer
//! commands (milli-units and per-mille retention factors) for the host to
//! apply to the body.

use crate::components::{
    BodyDesc, Placement, Ship, ForStates, SHIP_COLLIDER_RADIUS_MILLI, SHIP_DEPTH_MILLI, SHIP_LIFE,
    SHIP_ROTATION_SPEED_MILLI, SHIP_SCALE_DEN, SHIP_SCALE_NUM, SHIP_THRUST_MILLI,
};
use crate::input::{InputState, Key, Keys};
use crate::state::{Entity, GameState, RunState};
use vstd::prelude::*;

verus! {

/// Of the angular velocity, the fraction retained after one second of
/// damping, in thousandths (0.1).
pub const ANGVEL_RETENTION_PER_MILLE: u32 = 100;

/// Of the linear velocity, the fraction retained after one second of
/// damping, in thousandths (0.8).
pub const LINVEL_RETENTION_PER_MILLE: u32 = 800;

/// One damping step: the host multiplies the body's angular velocity by
/// `(angvel_retention_per_mille / 1000) ^ elapsed_seconds` and its linear
/// velocity by `(linvel_retention_per_mille / 1000) ^ elapsed_seconds`,
/// which decays both exponentially and independently of the frame rate.
#[derive(Clone, Copy, PartialEq, Eq, Structural, Debug)]
pub struct DampFactors {
    pub angvel_retention_per_mille: u32,
    pub linvel_retention_per_mille: u32,
}

/// Whether the damping system acts this tick: only while the current state
/// is `Game`, the player is registered, and the host found a rigid body for
/// it. Everywhere else the system is a no-op by design, not an error.
pub open spec fn damping_applies(runstate: RunState, body_present: bool) -> bool {
    &&& runstate.current == Some(GameState::Game)
    &&& runstate.player is Some
    &&& body_present
}

/// Decides the damping step for this tick. `body_present` is what the
/// host's rigid-body lookup for `runstate.player` reported; an absent
/// player or a failed lookup makes the tick a no-op.
pub fn player_dampening_system(runstate: &RunState, body_present: bool) -> (r: Option<
    DampFactors,
>)
    ensures
        r is Some <==> damping_applies(*runstate, body_present),
        r matches Some(f) ==> f == (DampFactors {
            angvel_retention_per_mille: ANGVEL_RETENTION_PER_MILLE,
            linvel_retention_per_mille: LINVEL_RETENTION_PER_MILLE,
        }),
{
    match runstate.current {
        Some(GameState::Game) => {
            if runstate.player.is_some() && body_present {
                Some(
                    DampFactors {
                        angvel_retention_per_mille: ANGVEL_RETENTION_PER_MILLE,
                        linvel_retention_per_mille: LINVEL_RETENTION_PER_MILLE,
                    },
                )
            } else {
                None
            }
        },
        _ => None,
    }
}

/// Net turn direction this tick: turn-left counts +1, turn-right counts -1,
/// so both keys held, or neither, cancel to zero.
pub open spec fn rotation_of(input: InputState) -> int {
    (if input.spec_pressed(Key::TurnLeft) {
        1int
    } else {
        0int
    }) - (if input.spec_pressed(Key::TurnRight) {
        1int
    } else {
        0int
    })
}

/// Thrust amount this tick: 1 while the thrust key is held, else 0.
pub open spec fn thrust_of(input: InputState) -> int {
    if input.spec_pressed(Key::Thrust) {
        1int
    } else {
        0int
    }
}

/// The state transition the input system requests this tick, if any:
/// confirm starts the game from the menu and returns to the menu from game
/// over; cancel pauses the game and resumes from pause.
pub open spec fn next_request(current: GameState, input: InputState) -> Option<GameState> {
    match current {
        GameState::Game => if input.spec_just_pressed(Key::Cancel) {
            Some(GameState::Pause)
        } else {
            None
        },
        GameState::StartMenu => if input.spec_just_pressed(Key::Confirm) {
            Some(GameState::Game)
        } else {
            None
        },
        GameState::GameOver => if input.spec_just_pressed(Key::Confirm) {
            Some(GameState::StartMenu)
        } else {
            None
        },
        GameState::Pause => if input.spec_just_pressed(Key::Cancel) {
            Some(GameState::Game)
        } else {
            None
        },
    }
}

/// How the input system sets the physics-activity flag this tick, if at
/// all: frozen on entering pause, resumed on leaving it.
pub open spec fn physics_toggle(current: GameState, input: InputState) -> Option<bool> {
    match current {
        GameState::Game => if input.spec_just_pressed(Key::Cancel) {
            Some(false)
        } else {
            None
        },
        GameState::Pause => if input.spec_just_pressed(Key::Cancel) {
            Some(true)
        } else {
            None
        },
        _ => None,
    }
}

/// Whether the input system requests application exit this tick: cancel,
/// pressed fresh, in the start menu or on the game-over screen.
pub open spec fn exit_requested(current: GameState, input: InputState) -> bool {
    &&& (current == GameState::StartMenu || current == GameState::GameOver)
    &&& input.spec_just_pressed(Key::Cancel)
}

/// Whether the input system fires the laser this tick: only in `Game`, only
/// on a fresh press of the fire key, and only when the host found the
/// ship's rigid body — edge-triggered, so a key held across ticks spawns at
/// most one projectile per actual press.
pub open spec fn fires(current: Option<GameState>, input: InputState, ship_found: bool) -> bool {
    &&& current == Some(GameState::Game)
    &&& ship_found
    &&& input.spec_just_pressed(Key::Fire)
}

/// What the input system asks the host to do to the ship's rigid body this
/// tick, beyond the run-state writes it performs itself.
#[derive(Clone, Copy, PartialEq, Eq, Structural, Debug)]
pub struct InputEffects {
    /// Wake the body from sleep before applying the impulses below.
    pub wake: bool,
    /// Torque impulse to apply, in milli-units; zero means none.
    pub torque_milli: i64,
    /// Magnitude of the force to apply along the body's current heading
    /// (its rotation applied to the local up axis), in milli-units; zero
    /// means none.
    pub force_milli: u64,
    /// Spawn one laser projectile from the body's current state.
    pub fire: bool,
    /// Emit one application-exit event.
    pub exit: bool,
}

impl InputEffects {
    /// Effects that ask the host for nothing.
    pub open spec fn is_inert_physics(self) -> bool {
        &&& !self.wake
        &&& self.torque_milli == 0
        &&& self.force_milli == 0
        &&& !self.fire
    }
}

/// Reads this tick's input and dispatches on the current game state.
///
/// In `Game`, turns the held keys into one torque impulse
/// (`rotation * rotation_speed`) and one force along the ship's heading
/// (`thrust * thrust`), at most one of each per tick; fires on a fresh
/// press of the fire key; and on a fresh press of cancel requests `Pause`
/// and freezes physics. In the menus, confirm requests the next state and
/// cancel requests exit; in `Pause`, cancel requests `Game` and resumes
/// physics.
///
/// `ship` is what the host's lookup of the player's rigid body and ship
/// descriptor returned; `None` (ship absent or body not yet attached)
/// silently skips every physics-mutating action this tick.
pub fn user_input_system(
    runstate: &mut RunState,
    physics_active: &mut bool,
    input: &InputState,
    ship: Option<&Ship>,
) -> (fx: InputEffects)
    ensures
        final(runstate).current == old(runstate).current,
        final(runstate).player == old(runstate).player,
        final(runstate).next == (match old(runstate).current {
            Some(c) => match next_request(c, *input) {
                Some(s) => Some(s),
                None => old(runstate).next,
            },
            None => old(runstate).next,
        }),
        *final(physics_active) == (match old(runstate).current {
            Some(c) => match physics_toggle(c, *input) {
                Some(b) => b,
                None => *old(physics_active),
            },
            None => *old(physics_active),
        }),
        fx.exit == (match old(runstate).current {
            Some(c) => exit_requested(c, *input),
            None => false,
        }),
        fx.fire == fires(old(runstate).current, *input, ship is Some),
        old(runstate).current == Some(GameState::Game) ==> (ship matches Some(sh) ==> {
            &&& fx.torque_milli as int == rotation_of(*input) * sh.rotation_speed_milli
            &&& fx.force_milli as int == thrust_of(*input) * sh.thrust_milli
            &&& fx.wake == (rotation_of(*input) != 0 || thrust_of(*input) != 0)
        }),
        old(runstate).current != Some(GameState::Game) || ship is None ==> {
            &&& !fx.wake
            &&& fx.torque_milli == 0
            &&& fx.force_milli == 0
        },
{
    match runstate.current {
        Some(GameState::Game) => {
            let mut rotation: i32 = 0;
            let mut thrust: u32 = 0;
            if input.pressed(Key::Thrust) {
                thrust += 1;
            }
            if input.pressed(Key::TurnLeft) {
                rotation += 1;
            }
            if input.pressed(Key::TurnRight) {
                rotation -= 1;
            }
            let fx = match ship {
                Some(sh) => {
                    proof {
                        let r = rotation as int;
                        let m = sh.rotation_speed_milli as int;
                        assert(-(u32::MAX as int) <= r * m <= u32::MAX as int) by (nonlinear_arith)
                            requires
                                -1 <= r <= 1,
                                0 <= m <= u32::MAX as int,
                        ;
                        let t = thrust as int;
                        let f = sh.thrust_milli as int;
                        assert(0 <= t * f <= u32::MAX as int) by (nonlinear_arith)
                            requires
                                0 <= t <= 1,
                                0 <= f <= u32::MAX as int,
                        ;
                    }
                    let torque_milli: i64 = (rotation as i64) * (sh.rotation_speed_milli as i64);
                    let force_milli: u64 = (thrust as u64) * (sh.thrust_milli as u64);
                    InputEffects {
                        wake: rotation != 0 || thrust != 0,
                        torque_milli,
                        force_milli,
                        fire: input.just_pressed(Key::Fire),
                        exit: false,
                    }
                },
                None => InputEffects {
                    wake: false,
                    torque_milli: 0,
                    force_milli: 0,
                    fire: false,
                    exit: false,
                },
            };
            if input.just_pressed(Key::Cancel) {
                runstate.next = Some(GameState::Pause);
                *physics_active = false;
            }
            fx
        },
        Some(GameState::StartMenu) => {
            if input.just_pressed(Key::Confirm) {
                runstate.next = Some(GameState::Game);
            }
            InputEffects {
                wake: false,
                torque_milli: 0,
                force_milli: 0,
                fire: false,
                exit: input.just_pressed(Key::Cancel),
            }
        },
        Some(GameState::GameOver) => {
            if input.just_pressed(Key::Confirm) {
                runstate.next = Some(GameState::StartMenu);
            }
            InputEffects {
                wake: false,
                torque_milli: 0,
                force_milli: 0,
                fire: false,
                exit: input.just_pressed(Key::Cancel),
            }
        },
        Some(GameState::Pause) => {
            if input.just_pressed(Key::Cancel) {
                runstate.next = Some(GameState::Game);
                *physics_active = true;
            }
            InputEffects {
                wake: false,
                torque_milli: 0,
                force_milli: 0,
                fire: false,
                exit: false,
            }
        },
        None => InputEffects {
            wake: false,
            torque_milli: 0,
            force_milli: 0,
            fire: false,
            exit: false,
        },
    }
}

/// One ship entity as the spawn system materializes it: its handle and the
/// components attached to it.
#[derive(Clone, Debug)]
pub struct SpawnedShip {
    pub id: Entity,
    pub ship: Ship,
    pub placement: Placement,
    pub body: BodyDesc,
    pub for_states: ForStates,
}

/// The entities of this core that exist in the host's world: the arena
/// index to hand out next and every ship entity spawned so far.
#[derive(Clone, Debug)]
pub struct World {
    pub next_index: u32,
    pub ships: Vec<SpawnedShip>,
}

impl World {
    /// An empty world: no entity spawned yet.
    pub fn new() -> (r: World)
        ensures
            r.next_index == 0,
            r.ships@.len() == 0,
    {
        World { next_index: 0, ships: Vec::new() }
    }
}

/// The run-state invariant on the player reference: while a player is
/// registered, a ship entity with that handle exists in the world. The
/// spawn system establishes it; the host's lifecycle driver, which despawns
/// the ship on entering `StartMenu`, must clear the reference with it.
pub open spec fn player_registered(world: World, runstate: RunState) -> bool {
    runstate.player matches Some(p) ==> exists|i: int|
        0 <= i < world.ships@.len() && world.ships@[i].id == p
}

/// Spawns the player ship: one new entity placed at the world origin at a
/// fixed depth and scale, with a dynamic rigid body carrying a circular
/// collider of unit radius, the fixed ship tunables, and a lifecycle tag
/// that retains it through `Game`, `Pause` and `GameOver` but not
/// `StartMenu`; registers the new entity as `runstate.player`.
pub fn spawn_player(world: &mut World, runstate: &mut RunState)
    requires
        old(world).next_index < u32::MAX,
    ensures
        final(world).ships@.len() == old(world).ships@.len() + 1,
        final(world).ships@ == old(world).ships@.push(final(world).ships@.last()),
        final(world).next_index == old(world).next_index + 1,
        ({
            let e = final(world).ships@.last();
            &&& e.id == (Entity { index: old(world).next_index, generation: 0 })
            &&& e.ship == (Ship {
                rotation_speed_milli: SHIP_ROTATION_SPEED_MILLI,
                thrust_milli: SHIP_THRUST_MILLI,
                life: SHIP_LIFE,
            })
            &&& e.placement == (Placement {
                x_milli: 0,
                y_milli: 0,
                z_milli: SHIP_DEPTH_MILLI,
                scale_num: SHIP_SCALE_NUM,
                scale_den: SHIP_SCALE_DEN,
            })
            &&& e.body == (BodyDesc {
                dynamic: true,
                collider_radius_milli: SHIP_COLLIDER_RADIUS_MILLI,
            })
            &&& e.for_states.states@ == seq![GameState::Game, GameState::Pause, GameState::GameOver]
        }),
        final(runstate).player == Some(final(world).ships@.last().id),
        final(runstate).current == old(runstate).current,
        final(runstate).next == old(runstate).next,
        player_registered(*final(world), *final(runstate)),
{
    let id = Entity { index: world.next_index, generation: 0 };
    world.next_index += 1;
    let mut states: Vec<GameState> = Vec::new();
    states.push(GameState::Game);
    states.push(GameState::Pause);
    states.push(GameState::GameOver);
    proof {
        assert(states@ == seq![GameState::Game, GameState::Pause, GameState::GameOver]);
    }
    let entity = SpawnedShip {
        id,
        ship: Ship {
            rotation_speed_milli: SHIP_ROTATION_SPEED_MILLI,
            thrust_milli: SHIP_THRUST_MILLI,
            life: SHIP_LIFE,
        },
        placement: Placement {
            x_milli: 0,
            y_milli: 0,
            z_milli: SHIP_DEPTH_MILLI,
            scale_num: SHIP_SCALE_NUM,
            scale_den: SHIP_SCALE_DEN,
        },
        body: BodyDesc { dynamic: true, collider_radius_milli: SHIP_COLLIDER_RADIUS_MILLI },
        for_states: ForStates { states },
    };
    world.ships.push(entity);
    runstate.player = Some(id);
}

/// Outside the `Game` state the damping system does nothing, whatever the
/// player registration and the body lookup reported.
pub proof fn lemma_damping_inactive_outside_game(runstate: RunState, body_present: bool)
    requires
        runstate.current != Some(GameState::Game),
    ensures
        !damping_applies(runstate, body_present),
{
}

/// Holding turn-left and turn-right together (or neither) cancels the turn:
/// the net rotation is zero, so the torque impulse applied is zero for any
/// ship tunables.
pub proof fn lemma_opposed_turn_keys_cancel(input: InputState, ship: Ship)
    requires
        input.spec_pressed(Key::TurnLeft) == input.spec_pressed(Key::TurnRight),
    ensures
        rotation_of(input) == 0,
        rotation_of(input) * ship.rotation_speed_milli == 0,
{
}

/// Firing is edge-triggered: when the fire key is already held and stays
/// held over the next poll, the tick after that poll fires no laser, in any
/// game state and whether or not the ship's body was found.
pub proof fn lemma_no_fire_while_held(
    start: InputState,
    sample: Keys,
    current: Option<GameState>,
    ship_found: bool,
)
    requires
        start.held.has(Key::Fire),
        sample.has(Key::Fire),
    ensures
        !fires(current, start.spec_polled(sample), ship_found),
{
}

/// The transition requests the input system makes, state by state: confirm
/// in the start menu requests `Game`; cancel in `Game` requests `Pause` and
/// freezes physics; cancel in `Pause` requests `Game` and resumes physics;
/// confirm on game over requests `StartMenu`.
pub proof fn lemma_transition_requests(input: InputState)
    ensures
        input.spec_just_pressed(Key::Confirm) ==> next_request(GameState::StartMenu, input)
            == Some(GameState::Game),
        input.spec_just_pressed(Key::Cancel) ==> next_request(GameState::Game, input)
            == Some(GameState::Pause) && physics_toggle(GameState::Game, input) == Some(false),
        input.spec_just_pressed(Key::Cancel) ==> next_request(GameState::Pause, input)
            == Some(GameState::Game) && physics_toggle(GameState::Pause, input) == Some(true),
        input.spec_just_pressed(Key::Confirm) ==> next_request(GameState::GameOver, input)
            == Some(GameState::StartMenu),
{
}

} // verus!
