use gears::game_manager::{GameManager, GameState, DEFAULT_ITERATION_THRESHOLD, TARGET_FRAME_NANOS};
use gears::time::Time;
use gears::vector::Vector3;
use gears::world::World;

#[test]
fn startup_seeds_one_entity() {
    let mut gm = GameManager::new(World::new());
    assert_eq!(gm.threshold, DEFAULT_ITERATION_THRESHOLD);
    assert_eq!(gm.target_nanos, TARGET_FRAME_NANOS);
    assert!(!gm.started);

    gm.startup();

    assert!(gm.started);
    assert_eq!(gm.world.len(), 1);
    let seeded = gm.world.get_transform(0).unwrap();
    assert_eq!(f32::from_bits(seeded.position.x), 0.0);
    assert_eq!(f32::from_bits(seeded.rotation.w), 0.0);
    let vel = gm.world.get_velocity(0).unwrap();
    assert_eq!(f32::from_bits(vel.dx), 1.0);
    assert_eq!(f32::from_bits(vel.dy), 1.0);
    assert_eq!(f32::from_bits(vel.dz), 1.0);
}

#[test]
fn run_performs_exactly_threshold_iterations() {
    let mut gm = GameManager::with_config(World::new(), 10, TARGET_FRAME_NANOS);
    assert_eq!(gm.state, GameState::PreStart);
    assert!(!gm.should_continue());

    gm.begin_run();
    let mut performed: u64 = 0;
    while gm.should_continue() {
        let _sleep = gm.finish_iteration(1_000_000);
        performed += 1;
    }

    assert_eq!(performed, 10);
    assert_eq!(gm.state, GameState::PreStart);
}

#[test]
fn run_completes_even_when_every_frame_is_slow() {
    let mut gm = GameManager::with_config(World::new(), 10, TARGET_FRAME_NANOS);
    gm.begin_run();
    let mut performed: u64 = 0;
    while gm.should_continue() {
        let sleep = gm.finish_iteration(u64::MAX as u128);
        assert_eq!(sleep, 0);
        performed += 1;
    }
    assert_eq!(performed, 10);
}

#[test]
fn unpaced_run_terminates_after_threshold_frames() {
    let mut gm = GameManager::with_config(World::new(), 10, TARGET_FRAME_NANOS);

    // Every frame far over budget: still exactly ten frames.
    let frames = gm.run_unpaced(123_456_789_000);
    assert_eq!(frames, 10);
    assert_eq!(gm.state, GameState::PreStart);

    // Instant frames: the count does not change either.
    let frames_again = gm.run_unpaced(0);
    assert_eq!(frames_again, 10);
    assert_eq!(gm.iterations, 10);
}

#[test]
fn pacing_sleeps_the_remainder_of_the_frame_budget() {
    let mut gm = GameManager::with_config(World::new(), 60, 16_666_666);
    gm.begin_run();
    assert_eq!(gm.finish_iteration(10_000_000), 6_666_666);
    assert_eq!(gm.finish_iteration(16_666_666), 0);
    assert_eq!(gm.finish_iteration(16_666_667), 0);
    assert_eq!(gm.finish_iteration(0), 16_666_666);
}

#[test]
fn update_system_advances_seeded_entity() {
    // One frame of the update system, as the host runs it, with a fixed
    // elapsed split of 0.5 s: position += velocity * dt on each axis.
    let mut gm = GameManager::new(World::new());
    gm.startup();
    gm.begin_run();

    let dt: f32 = 0.5;
    let pairs = gm.world.query_transform_velocity();
    let mut ups = Vec::new();
    for (e, t, v) in pairs {
        let x = f32::from_bits(t.position.x) + f32::from_bits(v.dx) * dt;
        let y = f32::from_bits(t.position.y) + f32::from_bits(v.dy) * dt;
        let z = f32::from_bits(t.position.z) + f32::from_bits(v.dz) * dt;
        ups.push((e, Vector3::new(x.to_bits(), y.to_bits(), z.to_bits())));
    }
    gm.world.apply_position_updates(&ups);

    let moved = gm.world.get_transform(0).unwrap();
    assert_eq!(f32::from_bits(moved.position.x), 0.5);
    assert_eq!(f32::from_bits(moved.position.y), 0.5);
    assert_eq!(f32::from_bits(moved.position.z), 0.5);
}

#[test]
fn time_split_does_not_consume_the_anchor() {
    let mut t = Time::new();
    let _ = t.delta();
    let first = t.split();
    let second = t.split();
    // Reading a split moves nothing: the anchor stays where delta put it,
    // so successive splits measure from the same point and only grow.
    assert!(second >= first);
    // Both readings are far below the ten seconds this test cannot take.
    assert!(second < 10_000_000_000);
}
