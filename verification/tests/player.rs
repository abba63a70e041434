use agility_camp::player::{
    player_movement, spawn_player, Player, HITBOX_HEIGHT, HITBOX_OFFSET, PLAYER_CEILING,
    PLAYER_FALL, PLAYER_FLOOR, PLAYER_HEIGHT, PLAYER_RISE, PLAYER_START_Y, PLAYER_WIDTH, PLAYER_X,
};
use agility_camp::UNITS_PER_PIXEL;
use rand::rngs::StdRng;
use rand::{Rng, SeedableRng};

fn player_at(y: i32) -> Player {
    Player::new(y).unwrap()
}

#[test]
fn player_constants_are_the_pixel_values_on_the_grid() {
    assert_eq!(UNITS_PER_PIXEL, 1_000);
    assert_eq!(PLAYER_CEILING, 300 * UNITS_PER_PIXEL);
    assert_eq!(PLAYER_FLOOR, -300 * UNITS_PER_PIXEL);
    assert_eq!(PLAYER_RISE, 3 * UNITS_PER_PIXEL);
    assert_eq!(PLAYER_FALL, 2 * UNITS_PER_PIXEL);
    assert_eq!(PLAYER_X, -400 * UNITS_PER_PIXEL);
    assert_eq!(PLAYER_WIDTH, 120 * UNITS_PER_PIXEL);
    assert_eq!(PLAYER_HEIGHT, 200 * UNITS_PER_PIXEL);
    assert_eq!(HITBOX_HEIGHT, PLAYER_HEIGHT / 2);
    assert_eq!(HITBOX_OFFSET, 100 * UNITS_PER_PIXEL);
    assert_eq!(HITBOX_OFFSET, PLAYER_HEIGHT / 2);
}

#[test]
fn player_starts_in_the_middle() {
    let player = spawn_player();
    assert_eq!(player.y(), PLAYER_START_Y);
    assert_eq!(player.y(), 0);
    assert_eq!(player.x(), -400_000);
}

#[test]
fn player_rises_three_pixels_while_ascending() {
    let mut player = spawn_player();
    player.step(true);
    assert_eq!(player.y(), 3_000);
    player.step(true);
    assert_eq!(player.y(), 6_000);
}

#[test]
fn player_sinks_two_pixels_otherwise() {
    let mut player = spawn_player();
    player.step(false);
    assert_eq!(player.y(), -2_000);
    player.step(false);
    assert_eq!(player.y(), -4_000);
}

#[test]
fn player_stops_at_the_ceiling() {
    let mut player = player_at(299_000);
    player.step(true);
    assert_eq!(player.y(), 300_000);
    player.step(true);
    assert_eq!(player.y(), 300_000);
    let mut player = player_at(297_000);
    player.step(true);
    assert_eq!(player.y(), 300_000);
    let mut player = player_at(296_999);
    player.step(true);
    assert_eq!(player.y(), 299_999);
}

#[test]
fn player_stops_at_the_floor() {
    let mut player = player_at(-299_000);
    player.step(false);
    assert_eq!(player.y(), -300_000);
    player.step(false);
    assert_eq!(player.y(), -300_000);
    let mut player = player_at(-298_000);
    player.step(false);
    assert_eq!(player.y(), -300_000);
    let mut player = player_at(-297_999);
    player.step(false);
    assert_eq!(player.y(), -299_999);
}

#[test]
fn player_leaves_floor_and_ceiling_again() {
    let mut player = player_at(PLAYER_FLOOR);
    player.step(true);
    assert_eq!(player.y(), -297_000);
    let mut player = player_at(PLAYER_CEILING);
    player.step(false);
    assert_eq!(player.y(), 298_000);
}

#[test]
fn player_outside_the_band_cannot_be_made() {
    assert!(Player::new(PLAYER_CEILING).is_some());
    assert!(Player::new(PLAYER_FLOOR).is_some());
    assert!(Player::new(PLAYER_CEILING + 1).is_none());
    assert!(Player::new(PLAYER_FLOOR - 1).is_none());
    assert!(Player::new(i32::MAX).is_none());
    assert!(Player::new(i32::MIN).is_none());
    assert_eq!(player_at(12_345).y(), 12_345);
}

#[test]
fn player_stays_in_band_whatever_the_inputs() {
    let mut rng = StdRng::seed_from_u64(1);
    for start in [PLAYER_FLOOR, -299_000, -1, 0, 1_500, 299_000, PLAYER_CEILING] {
        let mut player = player_at(start);
        for _ in 0..20_000 {
            player.step(rng.gen_bool(0.5));
            assert!(PLAYER_FLOOR <= player.y() && player.y() <= PLAYER_CEILING);
        }
    }
}

#[test]
fn player_stays_in_band_under_constant_input() {
    let mut player = spawn_player();
    for _ in 0..1_000 {
        player.step(true);
        assert!(player.y() <= PLAYER_CEILING);
    }
    assert_eq!(player.y(), PLAYER_CEILING);
    for _ in 0..1_000 {
        player.step(false);
        assert!(player.y() >= PLAYER_FLOOR);
    }
    assert_eq!(player.y(), PLAYER_FLOOR);
}

#[test]
fn player_reaches_the_floor_from_an_odd_height() {
    // 3 - 2 * 151 = -299: one more frame of sinking ends on the floor, not
    // a pixel below it.
    let mut player = spawn_player();
    player.step(true);
    for _ in 0..151 {
        player.step(false);
    }
    assert_eq!(player.y(), -299_000);
    player.step(false);
    assert_eq!(player.y(), -300_000);
}

#[test]
fn player_can_be_grounded() {
    let mut player = player_at(250_000);
    player.ground();
    assert_eq!(player.y(), PLAYER_FLOOR);
    player.ground();
    assert_eq!(player.y(), PLAYER_FLOOR);
}

#[test]
fn player_hitboxes_lie_below_and_above() {
    let player = player_at(10_000);
    let low = player.bone_hitbox();
    assert_eq!((low.x, low.y, low.width, low.height), (-400_000, -90_000, 120_000, 100_000));
    let high = player.hawk_hitbox();
    assert_eq!((high.x, high.y, high.width, high.height), (-400_000, 110_000, 120_000, 100_000));
    let low = player_at(PLAYER_FLOOR).bone_hitbox();
    assert_eq!(low.y, -400_000);
    let high = player_at(PLAYER_CEILING).hawk_hitbox();
    assert_eq!(high.y, 400_000);
}

#[test]
fn player_movement_moves_every_player() {
    let mut players = vec![player_at(0), player_at(299_000), player_at(-299_000)];
    player_movement(true, &mut players);
    let heights: Vec<i32> = players.iter().map(|p| p.y()).collect();
    assert_eq!(heights, vec![3_000, 300_000, -296_000]);
    player_movement(false, &mut players);
    let heights: Vec<i32> = players.iter().map(|p| p.y()).collect();
    assert_eq!(heights, vec![1_000, 298_000, -298_000]);
    player_movement(false, &mut players);
    player_movement(false, &mut players);
    let heights: Vec<i32> = players.iter().map(|p| p.y()).collect();
    assert_eq!(heights, vec![-3_000, 294_000, -300_000]);
}

#[test]
fn player_movement_of_nobody_does_nothing() {
    let mut players: Vec<Player> = Vec::new();
    player_movement(true, &mut players);
    assert!(players.is_empty());
}
