//! Game rules of Agility Camp, a small side-scrolling arcade game: a dog on
//! balloons rises and sinks, collects bones that drift towards it and is
//! forced to the ground by hawks.
//!
//! The crate holds the rules only. A host engine owns the window, the sprites
//! and the frame loop, and calls one function of this crate per rule and
//! frame. All lengths are integers on a fixed grid of [`UNITS_PER_PIXEL`]
//! steps per screen pixel, so that every rule is exact arithmetic. Chance
//! comes from a generator that the caller hands in.

pub mod aabb;
pub mod bone;
pub mod capability;
pub mod collision;
pub mod floater;
pub mod hawk;
pub mod player;
pub mod points;
pub mod random;
pub mod units;

pub use aabb::{collide, Aabb};
pub use bone::{bone_from_draws, bone_mover, bone_spawner, Bone};
pub use capability::{back_and_forth_movement, up_and_down_movement};
pub use collision::{player_collide_with_bone, player_collide_with_hawk};
pub use floater::{float_right, spawn_cloud, Floater};
pub use hawk::{
    hawk_arrives, hawk_from_draws, hawk_mover, hawk_roll_spawns, hawk_spawner, spawn_hawk, Hawk,
};
pub use player::{player_movement, spawn_player, Player};
pub use points::{setup_game, spawn_points, update_points, TotalPoints};
pub use units::{UNITS_PER_PIXEL, WINDOW_HEIGHT, WINDOW_WIDTH};
