use agility_camp::hawk::{
    hawk_arrives, hawk_from_draws, hawk_mover, hawk_roll_spawns, hawk_spawner, spawn_hawk, Hawk, HAWK_ROLL_RANGE,
    HAWK_ROLL_THRESHOLD, HAWK_SIZE, HAWK_SPAWN_X, HAWK_SPAWN_Y_MAX, HAWK_SPAWN_Y_MIN,
    HAWK_SPEED_MAX, HAWK_SPEED_MIN, HAWK_WRAP_SPAN, HAWK_WRAP_X, HAWK_Y_MAX, HAWK_Y_MIN,
};
use agility_camp::UNITS_PER_PIXEL;
use rand::rngs::StdRng;
use rand::SeedableRng;

fn hawk_at(x: i32, y: i32, speed: i32) -> Hawk {
    Hawk::new(x, y, speed).unwrap()
}

#[test]
fn hawk_constants_are_the_pixel_values_on_the_grid() {
    assert_eq!(HAWK_SIZE, 60 * UNITS_PER_PIXEL);
    assert_eq!(HAWK_SPAWN_X, 800 * UNITS_PER_PIXEL);
    assert_eq!((HAWK_SPAWN_Y_MIN, HAWK_SPAWN_Y_MAX), (-200_000, 400_000));
    assert_eq!((HAWK_SPEED_MIN, HAWK_SPEED_MAX), (2_500, 4_500));
    assert_eq!(HAWK_WRAP_X, -800 * UNITS_PER_PIXEL);
    assert_eq!(HAWK_WRAP_SPAN, 1_600 * UNITS_PER_PIXEL);
    assert_eq!((HAWK_Y_MIN, HAWK_Y_MAX), (-300_000, 350_000));
    assert_eq!(HAWK_ROLL_RANGE, 1_000 * UNITS_PER_PIXEL);
    assert_eq!(HAWK_ROLL_THRESHOLD, 999 * UNITS_PER_PIXEL);
}

#[test]
fn hawk_appears_only_when_the_roll_exceeds_the_threshold() {
    assert!(!hawk_roll_spawns(0));
    assert!(!hawk_roll_spawns(500_000));
    assert!(!hawk_roll_spawns(998_999));
    assert!(!hawk_roll_spawns(999_000));
    assert!(hawk_roll_spawns(999_001));
    assert!(hawk_roll_spawns(999_999));
}

#[test]
fn hawk_rolls_that_spawn_are_999_in_a_million() {
    let spawning = (0..HAWK_ROLL_RANGE).filter(|&roll| hawk_roll_spawns(roll)).count();
    assert_eq!(spawning, 999);
}

#[test]
fn hawk_from_draws_holds_what_was_drawn() {
    let hawk = hawk_from_draws(0, 3_000);
    assert_eq!((hawk.x(), hawk.y(), hawk.speed()), (800_000, 0, 3_000));
    let hawk = hawk_from_draws(-200_000, 2_500);
    assert_eq!((hawk.x(), hawk.y(), hawk.speed()), (800_000, -200_000, 2_500));
    let hawk = hawk_from_draws(399_999, 4_499);
    assert_eq!((hawk.x(), hawk.y(), hawk.speed()), (800_000, 399_999, 4_499));
    assert_eq!(Some(hawk), Hawk::new(HAWK_SPAWN_X, 399_999, 4_499));
}

#[test]
fn spawned_hawk_starts_at_the_right_edge() {
    let mut rng = StdRng::seed_from_u64(9);
    let mut heights: Vec<i32> = Vec::new();
    let mut speeds: Vec<i32> = Vec::new();
    for _ in 0..500 {
        let hawk = spawn_hawk(&mut rng);
        assert_eq!(hawk.x(), 800_000);
        assert!(HAWK_SPAWN_Y_MIN <= hawk.y() && hawk.y() < HAWK_SPAWN_Y_MAX);
        assert!(HAWK_SPEED_MIN <= hawk.speed() && hawk.speed() < HAWK_SPEED_MAX);
        heights.push(hawk.y());
        speeds.push(hawk.speed());
    }
    assert!(heights.iter().any(|&y| y != heights[0]));
    assert!(speeds.iter().any(|&s| s != speeds[0]));
    assert!(heights.iter().any(|&y| y != HAWK_SPAWN_Y_MIN));
    assert!(speeds.iter().any(|&s| s != HAWK_SPEED_MIN));
}

#[test]
fn hawk_arrives_on_a_roll_over_the_threshold() {
    let mut rng = StdRng::seed_from_u64(12);
    let resident = hawk_at(0, 0, 3_000);
    let mut hawks = vec![resident];
    for roll in [0, 1, 998_999, 999_000] {
        hawk_arrives(&mut hawks, roll, &mut rng);
        assert_eq!(hawks, vec![resident]);
    }
    for (arrived, roll) in [999_001, 999_500, 999_999].into_iter().enumerate() {
        hawk_arrives(&mut hawks, roll, &mut rng);
        assert_eq!(hawks.len(), arrived + 2);
        assert_eq!(hawks[0], resident);
        let newcomer = hawks[arrived + 1];
        assert_eq!(newcomer.x(), HAWK_SPAWN_X);
        assert!(HAWK_SPAWN_Y_MIN <= newcomer.y() && newcomer.y() < HAWK_SPAWN_Y_MAX);
        assert!(HAWK_SPEED_MIN <= newcomer.speed() && newcomer.speed() < HAWK_SPEED_MAX);
    }
}

#[test]
fn hawk_spawner_brings_a_hawk_in_about_one_frame_of_a_thousand() {
    let frames: u32 = 1_000_000;
    let mut rng = StdRng::seed_from_u64(2022);
    let mut hawks: Vec<Hawk> = Vec::new();
    for _ in 0..frames {
        let before = hawks.len();
        hawk_spawner(&mut hawks, &mut rng);
        assert!(hawks.len() == before || hawks.len() == before + 1);
    }
    // 999 of a million rolls spawn: about 999 hawks are expected, and the
    // count scatters by about 32 around that.
    let share = hawks.len() as f64 / frames as f64;
    assert!(share > 0.0008 && share < 0.0012, "share of frames with a new hawk: {}", share);
    for hawk in &hawks {
        assert_eq!(hawk.x(), HAWK_SPAWN_X);
        assert!(HAWK_SPAWN_Y_MIN <= hawk.y() && hawk.y() < HAWK_SPAWN_Y_MAX);
        assert!(HAWK_SPEED_MIN <= hawk.speed() && hawk.speed() < HAWK_SPEED_MAX);
    }
}

#[test]
fn hawk_spawner_keeps_the_hawks_that_are_there() {
    let mut rng = StdRng::seed_from_u64(4);
    let first = hawk_at(0, 0, 3_000);
    let second = hawk_at(-100_000, 50_000, 4_499);
    let mut hawks = vec![first, second];
    for _ in 0..20_000 {
        hawk_spawner(&mut hawks, &mut rng);
        assert_eq!(hawks[0], first);
        assert_eq!(hawks[1], second);
    }
    assert!(hawks.len() > 2);
}

#[test]
fn hawk_flies_its_speed_to_the_left() {
    let mut hawk = hawk_at(800_000, 100_000, 2_500);
    hawk.advance(0);
    assert_eq!((hawk.x(), hawk.y(), hawk.speed()), (797_500, 100_000, 2_500));
    let mut hawk = hawk_at(0, -5, 4_499);
    hawk.advance(0);
    assert_eq!((hawk.x(), hawk.y(), hawk.speed()), (-4_499, -5, 4_499));
}

#[test]
fn hawk_on_the_threshold_does_not_wrap() {
    let mut hawk = hawk_at(-797_000, 100_000, 3_000);
    assert!(!hawk.wraps_next());
    hawk.advance(0);
    assert_eq!((hawk.x(), hawk.y()), (-800_000, 100_000));
}

#[test]
fn hawk_past_the_threshold_wraps_to_the_right() {
    let mut hawk = hawk_at(-797_000, 100_000, 3_001);
    assert!(hawk.wraps_next());
    hawk.advance(-300_000);
    assert_eq!((hawk.x(), hawk.y(), hawk.speed()), (799_999, -300_000, 3_001));
    let mut hawk = hawk_at(-800_000, 100_000, 4_499);
    hawk.advance(349_999);
    assert_eq!((hawk.x(), hawk.y(), hawk.speed()), (795_501, 349_999, 4_499));
}

#[test]
fn hawk_outside_the_sky_cannot_be_made() {
    assert!(Hawk::new(HAWK_WRAP_X, 0, 3_000).is_some());
    assert!(Hawk::new(HAWK_WRAP_X - 1, 0, 3_000).is_none());
    assert!(Hawk::new(HAWK_SPAWN_X, 0, 3_000).is_some());
    assert!(Hawk::new(HAWK_SPAWN_X + 1, 0, 3_000).is_none());
    assert!(Hawk::new(0, HAWK_Y_MIN, 3_000).is_some());
    assert!(Hawk::new(0, HAWK_Y_MIN - 1, 3_000).is_none());
    assert!(Hawk::new(0, HAWK_SPAWN_Y_MAX - 1, 3_000).is_some());
    assert!(Hawk::new(0, HAWK_SPAWN_Y_MAX, 3_000).is_none());
    assert!(Hawk::new(0, 0, HAWK_SPEED_MIN).is_some());
    assert!(Hawk::new(0, 0, HAWK_SPEED_MIN - 1).is_none());
    assert!(Hawk::new(0, 0, HAWK_SPEED_MAX - 1).is_some());
    assert!(Hawk::new(0, 0, HAWK_SPEED_MAX).is_none());
}

#[test]
fn hawk_bounds_are_its_size_around_its_centre() {
    let bounds = hawk_at(5_000, -6_000, 3_000).bounds();
    assert_eq!((bounds.x, bounds.y, bounds.width, bounds.height), (5_000, -6_000, 60_000, 60_000));
}

#[test]
fn hawk_mover_moves_every_hawk() {
    let mut rng = StdRng::seed_from_u64(8);
    let mut hawks = vec![hawk_at(800_000, 399_999, 2_500), hawk_at(-799_000, 0, 4_000)];
    hawk_mover(&mut hawks, &mut rng);
    assert_eq!((hawks[0].x(), hawks[0].y(), hawks[0].speed()), (797_500, 399_999, 2_500));
    assert_eq!((hawks[1].x(), hawks[1].speed()), (797_000, 4_000));
    assert!(HAWK_Y_MIN <= hawks[1].y() && hawks[1].y() < HAWK_Y_MAX);
}

#[test]
fn hawk_mover_keeps_the_hawks_in_the_sky_for_good() {
    let mut rng = StdRng::seed_from_u64(6);
    let mut hawks: Vec<Hawk> = (0..5).map(|_| spawn_hawk(&mut rng)).collect();
    let mut wraps = 0;
    let mut heights: Vec<i32> = Vec::new();
    for _ in 0..5_000 {
        let before = hawks.clone();
        hawk_mover(&mut hawks, &mut rng);
        assert_eq!(hawks.len(), 5);
        for (old, new) in before.iter().zip(hawks.iter()) {
            assert!(HAWK_WRAP_X <= new.x() && new.x() <= HAWK_SPAWN_X);
            assert_eq!(new.speed(), old.speed());
            if old.x() - old.speed() < HAWK_WRAP_X {
                wraps += 1;
                assert_eq!(new.x(), old.x() - old.speed() + HAWK_WRAP_SPAN);
                assert!(HAWK_Y_MIN <= new.y() && new.y() < HAWK_Y_MAX);
                heights.push(new.y());
            } else {
                assert_eq!(new.x(), old.x() - old.speed());
                assert_eq!(new.y(), old.y());
            }
        }
    }
    assert!(wraps > 5);
    assert!(heights.iter().any(|&y| y != heights[0]));
}
