use ship_control::state::{Entity, GameState, RunState};
use ship_control::player::{spawn_player, World};

#[test]
fn spawn_creates_one_ship_and_registers_player() {
    let mut world = World::new();
    let mut rs = RunState::new();
    spawn_player(&mut world, &mut rs);

    assert_eq!(world.ships.len(), 1);
    let e = &world.ships[0];
    assert_eq!(rs.player, Some(e.id));
    assert_eq!(e.id, Entity { index: 0, generation: 0 });
    assert_eq!(rs.current, None);
    assert_eq!(rs.next, None);
}

#[test]
fn spawned_ship_tunables() {
    let mut world = World::new();
    let mut rs = RunState::new();
    spawn_player(&mut world, &mut rs);
    let e = &world.ships[0];

    assert_eq!(e.ship.rotation_speed_milli, 300);
    assert_eq!(e.ship.thrust_milli, 60000);
    assert_eq!(e.ship.life, 1);
    // The milli-unit tunables stand for rotation_speed 0.3 and thrust 60.0.
    assert_eq!(e.ship.rotation_speed_milli as f32 / 1000.0, 0.3);
    assert_eq!(e.ship.thrust_milli as f32 / 1000.0, 60.0);
}

#[test]
fn spawned_ship_placement_and_body() {
    let mut world = World::new();
    let mut rs = RunState::new();
    spawn_player(&mut world, &mut rs);
    let e = &world.ships[0];

    assert_eq!(e.placement.x_milli, 0);
    assert_eq!(e.placement.y_milli, 0);
    assert_eq!(e.placement.z_milli, -5000);
    assert_eq!(e.placement.scale_num, 1);
    assert_eq!(e.placement.scale_den, 37);
    assert_eq!(e.placement.scale_num as f32 / e.placement.scale_den as f32, 1.0 / 37.0);

    assert!(e.body.dynamic);
    assert_eq!(e.body.collider_radius_milli, 1000);
}

#[test]
fn spawned_ship_lifecycle_states() {
    let mut world = World::new();
    let mut rs = RunState::new();
    spawn_player(&mut world, &mut rs);
    let e = &world.ships[0];

    assert!(e.for_states.retained_in(GameState::Game));
    assert!(e.for_states.retained_in(GameState::Pause));
    assert!(e.for_states.retained_in(GameState::GameOver));
    assert!(!e.for_states.retained_in(GameState::StartMenu));
}

#[test]
fn spawn_allocates_fresh_handles() {
    let mut world = World::new();
    let mut rs = RunState::new();
    spawn_player(&mut world, &mut rs);
    let first = world.ships[0].id;
    spawn_player(&mut world, &mut rs);
    let second = world.ships[1].id;

    assert_eq!(world.ships.len(), 2);
    assert_ne!(first, second);
    assert_eq!(second, Entity { index: 1, generation: 0 });
    // The player reference follows the most recent spawn.
    assert_eq!(rs.player, Some(second));
}
