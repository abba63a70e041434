//! The player: a dog that rises while the ascend key is held and sinks
//! otherwise, between the ground and a ceiling.

use crate::aabb::Aabb;
use vstd::prelude::*;

verus! {

/// Width of the player's sprite.
pub const PLAYER_WIDTH: i32 = 120_000;

/// Height of the player's sprite.
pub const PLAYER_HEIGHT: i32 = 200_000;

/// Horizontal position of the player. The player never moves sideways.
pub const PLAYER_X: i32 = -400_000;

/// Height at which the player starts.
pub const PLAYER_START_Y: i32 = 0;

/// Highest position the player can reach.
pub const PLAYER_CEILING: i32 = 300_000;

/// Ground level: the lowest position of the player.
pub const PLAYER_FLOOR: i32 = -300_000;

/// Rise per frame while the ascend key is held.
pub const PLAYER_RISE: i32 = 3_000;

/// Fall per frame while the ascend key is not held.
pub const PLAYER_FALL: i32 = 2_000;

/// Height of the player's hit-box: half the sprite.
pub const HITBOX_HEIGHT: i32 = 100_000;

/// Distance between the player's position and the centre of a hit-box:
/// half the height of the sprite. The box that collects bones lies this far
/// below, the one that hawks strike this far above.
pub const HITBOX_OFFSET: i32 = 100_000;

/// Height of the player one frame after it was at `y`: up by
/// [`PLAYER_RISE`] but not over the ceiling while ascending, down by
/// [`PLAYER_FALL`] but not under the floor otherwise.
pub open spec fn next_height(y: int, ascend: bool) -> int {
    if ascend {
        if y + PLAYER_RISE > PLAYER_CEILING {
            PLAYER_CEILING as int
        } else {
            y + PLAYER_RISE
        }
    } else {
        if y - PLAYER_FALL < PLAYER_FLOOR {
            PLAYER_FLOOR as int
        } else {
            y - PLAYER_FALL
        }
    }
}

/// Height of the player after the frames of `inputs`, oldest first, each
/// entry telling whether the ascend key was held in that frame.
pub open spec fn height_after(y: int, inputs: Seq<bool>) -> int
    decreases inputs.len(),
{
    if inputs.len() == 0 {
        y
    } else {
        next_height(height_after(y, inputs.drop_last()), inputs.last())
    }
}

/// Whether `y` lies between the floor and the ceiling, both included.
pub open spec fn in_band(y: int) -> bool {
    PLAYER_FLOOR <= y <= PLAYER_CEILING
}

/// The player. Only its height changes; it always lies within the band.
#[derive(Clone, Copy, Debug, PartialEq, Eq, Structural)]
pub struct Player {
    y: i32,
}

impl Player {
    /// Height of the player.
    pub closed spec fn spec_y(&self) -> i32 {
        self.y
    }

    /// The player is between the floor and the ceiling.
    #[verifier::type_invariant]
    pub open spec fn wf(&self) -> bool {
        in_band(self.spec_y() as int)
    }

    /// A player at height `y`, if that lies within the band.
    pub fn new(y: i32) -> (player: Option<Player>)
        ensures
            player.is_some() <==> in_band(y as int),
            player matches Some(p) ==> p.y() == y && p.wf(),
    {
        if PLAYER_FLOOR <= y && y <= PLAYER_CEILING {
            Some(Player { y })
        } else {
            None
        }
    }

    /// Height of the player.
    #[verifier::when_used_as_spec(spec_y)]
    pub fn y(&self) -> (y: i32)
        ensures
            y == self.spec_y(),
            in_band(y as int),
    {
        proof {
            use_type_invariant(self);
        }
        self.y
    }

    /// Horizontal position of the player.
    pub fn x(&self) -> (x: i32)
        ensures
            x == PLAYER_X,
    {
        PLAYER_X
    }

    /// The box with which the player collects bones: as wide as the sprite,
    /// half as high, centred [`HITBOX_OFFSET`] below the player's position.
    pub open spec fn spec_bone_hitbox(&self) -> Aabb {
        Aabb {
            x: PLAYER_X,
            y: (self.y() - HITBOX_OFFSET) as i32,
            width: PLAYER_WIDTH,
            height: HITBOX_HEIGHT,
        }
    }

    /// The box in which a hawk strikes the player: as wide as the sprite,
    /// half as high, centred [`HITBOX_OFFSET`] above the player's position.
    pub open spec fn spec_hawk_hitbox(&self) -> Aabb {
        Aabb {
            x: PLAYER_X,
            y: (self.y() + HITBOX_OFFSET) as i32,
            width: PLAYER_WIDTH,
            height: HITBOX_HEIGHT,
        }
    }

    /// The box with which the player collects bones.
    #[verifier::when_used_as_spec(spec_bone_hitbox)]
    pub fn bone_hitbox(&self) -> (hitbox: Aabb)
        ensures
            hitbox == self.spec_bone_hitbox(),
            hitbox.y == self.y() - HITBOX_OFFSET,
    {
        proof {
            use_type_invariant(self);
        }
        Aabb { x: PLAYER_X, y: self.y - HITBOX_OFFSET, width: PLAYER_WIDTH, height: HITBOX_HEIGHT }
    }

    /// The box in which a hawk strikes the player.
    #[verifier::when_used_as_spec(spec_hawk_hitbox)]
    pub fn hawk_hitbox(&self) -> (hitbox: Aabb)
        ensures
            hitbox == self.spec_hawk_hitbox(),
            hitbox.y == self.y() + HITBOX_OFFSET,
    {
        proof {
            use_type_invariant(self);
        }
        Aabb { x: PLAYER_X, y: self.y + HITBOX_OFFSET, width: PLAYER_WIDTH, height: HITBOX_HEIGHT }
    }

    /// Moves the player by one frame.
    pub fn step(&mut self, ascend: bool)
        ensures
            final(self).y() == next_height(old(self).y() as int, ascend),
            final(self).wf(),
    {
        proof {
            use_type_invariant(&*self);
        }
        if ascend {
            let risen: i32 = self.y + PLAYER_RISE;
            if risen > PLAYER_CEILING {
                self.y = PLAYER_CEILING;
            } else {
                self.y = risen;
            }
        } else {
            let fallen: i32 = self.y - PLAYER_FALL;
            if fallen < PLAYER_FLOOR {
                self.y = PLAYER_FLOOR;
            } else {
                self.y = fallen;
            }
        }
    }

    /// Puts the player on the ground.
    pub fn ground(&mut self)
        ensures
            final(self).y() == PLAYER_FLOOR,
            final(self).wf(),
    {
        self.y = PLAYER_FLOOR;
    }
}

/// The player as the game starts: at [`PLAYER_START_Y`].
pub fn spawn_player() -> (player: Player)
    ensures
        player.y() == PLAYER_START_Y,
        player.wf(),
{
    Player { y: PLAYER_START_Y }
}

/// Moves every player by one frame: up while `ascend` is held, down
/// otherwise, never past the ceiling or the floor.
pub fn player_movement(ascend: bool, players: &mut Vec<Player>)
    ensures
        final(players).len() == old(players).len(),
        forall|i: int|
            0 <= i < old(players).len() ==> (#[trigger] final(players)[i]).y() == next_height(
                old(players)[i].y() as int,
                ascend,
            ) && in_band(final(players)[i].y() as int),
{
    let count: usize = players.len();
    let mut i: usize = 0;
    while i < count
        invariant
            i <= count,
            players.len() == count,
            count == old(players).len(),
            forall|k: int|
                0 <= k < i ==> (#[trigger] players[k]).y() == next_height(
                    old(players)[k].y() as int,
                    ascend,
                ) && in_band(players[k].y() as int),
            forall|k: int| i <= k < count ==> players[k] == old(players)[k],
        decreases count - i,
    {
        let mut player: Player = players[i];
        player.step(ascend);
        players.set(i, player);
        i += 1;
    }
}

/// However the ascend key is pressed and released, a player that starts
/// within the band stays within it.
pub proof fn lemma_player_stays_in_band(y: int, inputs: Seq<bool>)
    requires
        in_band(y),
    ensures
        in_band(height_after(y, inputs)),
    decreases inputs.len(),
{
    if inputs.len() > 0 {
        lemma_player_stays_in_band(y, inputs.drop_last());
    }
}

} // verus!
