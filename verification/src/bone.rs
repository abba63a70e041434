//! Bones: the collectibles. They drift to the left while spinning, reappear
//! on the right when they reach the left threshold, and jump far to the right
//! when the player collects them.

use crate::aabb::{collide, Aabb};
use crate::player::{Player, HITBOX_HEIGHT, HITBOX_OFFSET, PLAYER_WIDTH, PLAYER_X};
use crate::random::draw;
use rand::rngs::StdRng;
use vstd::prelude::*;

verus! {

/// Width of a bone.
pub const BONE_WIDTH: i32 = 30_000;

/// Height of a bone.
pub const BONE_HEIGHT: i32 = 15_000;

/// Number of bones in the game.
pub const BONE_COUNT: usize = 9;

/// Drift to the left per frame.
pub const BONE_STEP: i32 = 2_000;

/// Left threshold: a bone that gets further left than this wraps around.
pub const BONE_WRAP_X: i32 = -650_000;

/// Distance by which a wrapping bone jumps to the right: the window's width.
pub const BONE_WRAP_SPAN: i32 = 1_280_000;

/// Leftmost position at which a bone is created.
pub const BONE_SPAWN_X_MIN: i32 = -500_000;

/// Bones are created left of this position.
pub const BONE_SPAWN_X_MAX: i32 = 500_000;

/// Lowest height of a bone that is created or wraps around.
pub const BONE_Y_MIN: i32 = -350_000;

/// A bone that is created or wraps around gets a height below this one.
pub const BONE_Y_MAX: i32 = 350_000;

/// Distance by which a collected bone jumps to the right.
pub const BONE_RESPAWN_SHIFT: i32 = 1_000_000;

/// Lowest height of a bone after it was collected.
pub const BONE_RESPAWN_Y_MIN: i32 = -380_000;

/// A collected bone gets a height below this one.
pub const BONE_RESPAWN_Y_MAX: i32 = 380_000;

/// Lowest height at which a bone can lie: the centre of the collecting box
/// of a player on the ground. No reroll puts a bone this low, but one can
/// be made there.
pub const BONE_FIELD_Y_MIN: i32 = -400_000;

/// Rightmost position a bone can have: where the rightmost bone that still
/// touches the player would land when collected.
pub const BONE_X_MAX: i32 = 675_000;

/// Spin units in one full turn of a bone.
pub const SPIN_PER_TURN: u32 = 60_000;

/// Spin per frame: a bone turns once in sixty frames.
pub const SPIN_STEP: u32 = 1_000;

/// Bones are created with a spin below this one: half a turn.
pub const SPIN_SPAWN_MAX: u32 = 30_000;

/// Whether the next step of a bone at `x` would cross the wrap threshold.
pub open spec fn bone_wraps(x: int) -> bool {
    x - BONE_STEP < BONE_WRAP_X
}

/// Horizontal position, one frame later, of a bone at `x`: one step to the
/// left, unless that step would cross the wrap threshold. Then the bone
/// reappears a wrap span to the right of where it was, which is a wrap span
/// right of the threshold or further.
pub open spec fn bone_next_x(x: int) -> int {
    if bone_wraps(x) {
        x + BONE_WRAP_SPAN
    } else {
        x - BONE_STEP
    }
}

/// Spin, one frame later, of a bone with spin `spin`.
pub open spec fn next_spin(spin: int) -> int {
    (spin + SPIN_STEP) % (SPIN_PER_TURN as int)
}

/// Spin of a bone `frames` frames after it had spin `spin`.
pub open spec fn spin_after(spin: int, frames: nat) -> int
    decreases frames,
{
    if frames == 0 {
        spin
    } else {
        next_spin(spin_after(spin, (frames - 1) as nat))
    }
}

/// A bone. It stays between the wrap threshold and [`BONE_X_MAX`], at a
/// height from [`BONE_FIELD_Y_MIN`] up to the highest that a reroll can
/// give, with a spin of less than a turn.
#[derive(Clone, Copy, Debug, PartialEq, Eq, Structural)]
pub struct Bone {
    x: i32,
    y: i32,
    spin: u32,
}

impl Bone {
    /// Horizontal position of the bone's centre.
    pub closed spec fn spec_x(&self) -> i32 {
        self.x
    }

    /// Height of the bone's centre.
    pub closed spec fn spec_y(&self) -> i32 {
        self.y
    }

    /// Angle of the bone, in spin units.
    pub closed spec fn spec_spin(&self) -> u32 {
        self.spin
    }

    /// The bone lies where the game can put one.
    #[verifier::type_invariant]
    pub open spec fn wf(&self) -> bool {
        bone_fits(self.spec_x() as int, self.spec_y() as int, self.spec_spin() as int)
    }

    /// A bone at `(x, y)` with spin `spin`, if the game can put one there.
    pub fn new(x: i32, y: i32, spin: u32) -> (bone: Option<Bone>)
        ensures
            bone.is_some() <==> bone_fits(x as int, y as int, spin as int),
            bone matches Some(b) ==> b.x() == x && b.y() == y && b.spin() == spin && b.wf(),
    {
        if BONE_WRAP_X <= x && x <= BONE_X_MAX && BONE_FIELD_Y_MIN <= y && y
            < BONE_RESPAWN_Y_MAX && spin < SPIN_PER_TURN {
            Some(Bone { x, y, spin })
        } else {
            None
        }
    }

    /// Horizontal position of the bone's centre.
    #[verifier::when_used_as_spec(spec_x)]
    pub fn x(&self) -> (x: i32)
        ensures
            x == self.spec_x(),
            BONE_WRAP_X <= x <= BONE_X_MAX,
    {
        proof {
            use_type_invariant(self);
        }
        self.x
    }

    /// Height of the bone's centre.
    #[verifier::when_used_as_spec(spec_y)]
    pub fn y(&self) -> (y: i32)
        ensures
            y == self.spec_y(),
            BONE_FIELD_Y_MIN <= y < BONE_RESPAWN_Y_MAX,
    {
        proof {
            use_type_invariant(self);
        }
        self.y
    }

    /// Angle of the bone, in spin units.
    #[verifier::when_used_as_spec(spec_spin)]
    pub fn spin(&self) -> (spin: u32)
        ensures
            spin == self.spec_spin(),
            spin < SPIN_PER_TURN,
    {
        proof {
            use_type_invariant(self);
        }
        self.spin
    }

    /// The box of the bone: its size around its centre.
    pub open spec fn spec_bounds(&self) -> Aabb {
        Aabb { x: self.x(), y: self.y(), width: BONE_WIDTH, height: BONE_HEIGHT }
    }

    /// The box of the bone.
    #[verifier::when_used_as_spec(spec_bounds)]
    pub fn bounds(&self) -> (bounds: Aabb)
        ensures
            bounds == self.spec_bounds(),
    {
        Aabb { x: self.x, y: self.y, width: BONE_WIDTH, height: BONE_HEIGHT }
    }

    /// Whether the bone's box overlaps the box with which `player` collects
    /// bones.
    pub open spec fn spec_touches(&self, player: &Player) -> bool {
        self.bounds().overlaps(player.bone_hitbox())
    }

    /// Whether the bone's box overlaps the box with which `player` collects
    /// bones.
    #[verifier::when_used_as_spec(spec_touches)]
    pub fn touches(&self, player: &Player) -> (hit: bool)
        ensures
            hit == self.spec_touches(player),
    {
        let mine: Aabb = self.bounds();
        let theirs: Aabb = player.bone_hitbox();
        collide(&mine, &theirs)
    }

    /// Whether the bone's next step would cross the wrap threshold.
    pub fn wraps_next(&self) -> (wraps: bool)
        ensures
            wraps == bone_wraps(self.x() as int),
    {
        proof {
            use_type_invariant(self);
        }
        self.x - BONE_STEP < BONE_WRAP_X
    }

    /// Moves the bone by one frame: a step to the left and a step of spin.
    /// A bone whose step would cross the wrap threshold jumps a wrap span to
    /// the right instead and takes the height `reroll_y`; otherwise
    /// `reroll_y` is not used.
    pub fn advance(&mut self, reroll_y: i32)
        requires
            BONE_Y_MIN <= reroll_y < BONE_Y_MAX,
        ensures
            final(self).x() == bone_next_x(old(self).x() as int),
            final(self).y() == if bone_wraps(old(self).x() as int) {
                reroll_y
            } else {
                old(self).y()
            },
            final(self).spin() == next_spin(old(self).spin() as int),
            final(self).wf(),
    {
        proof {
            use_type_invariant(&*self);
        }
        let stepped: i32 = self.x - BONE_STEP;
        let spun: u32 = (self.spin + SPIN_STEP) % SPIN_PER_TURN;
        if stepped < BONE_WRAP_X {
            *self = Bone { x: self.x + BONE_WRAP_SPAN, y: reroll_y, spin: spun };
        } else {
            *self = Bone { x: stepped, y: self.y, spin: spun };
        }
    }

    /// Takes a bone that touches a player away from it: far to the right, at
    /// the height `respawn_y`.
    pub(crate) fn respawn(&mut self, respawn_y: i32)
        requires
            old(self).x() + BONE_RESPAWN_SHIFT <= BONE_X_MAX,
            BONE_RESPAWN_Y_MIN <= respawn_y < BONE_RESPAWN_Y_MAX,
        ensures
            final(self).x() == old(self).x() + BONE_RESPAWN_SHIFT,
            final(self).y() == respawn_y,
            final(self).spin() == old(self).spin(),
            final(self).wf(),
    {
        proof {
            use_type_invariant(&*self);
        }
        *self = Bone { x: self.x + BONE_RESPAWN_SHIFT, y: respawn_y, spin: self.spin };
    }

    /// Lets `player` collect the bone if it touches the bone. A collected
    /// bone jumps [`BONE_RESPAWN_SHIFT`] to the right and takes the height
    /// `respawn_y`; a bone that is not touched stays as it is.
    pub fn collect(&mut self, player: &Player, respawn_y: i32) -> (caught: bool)
        requires
            BONE_RESPAWN_Y_MIN <= respawn_y < BONE_RESPAWN_Y_MAX,
        ensures
            caught == old(self).touches(player),
            caught ==> final(self).x() == old(self).x() + BONE_RESPAWN_SHIFT && final(self).y()
                == respawn_y && final(self).spin() == old(self).spin(),
            !caught ==> *final(self) == *old(self),
            final(self).wf(),
    {
        proof {
            use_type_invariant(&*self);
            use_type_invariant(player);
        }
        if self.touches(player) {
            proof {
                lemma_touching_bone_can_respawn(*self, *player);
            }
            self.respawn(respawn_y);
            true
        } else {
            false
        }
    }
}

/// Whether the game can put a bone at `(x, y)` with spin `spin`.
pub open spec fn bone_fits(x: int, y: int, spin: int) -> bool {
    &&& BONE_WRAP_X <= x <= BONE_X_MAX
    &&& BONE_FIELD_Y_MIN <= y < BONE_RESPAWN_Y_MAX
    &&& 0 <= spin < SPIN_PER_TURN
}

/// What one frame of drifting makes of a bone: `after` is `before` one step
/// further in its spin and one step further left at the same height; if
/// that step would cross the wrap threshold, `after` lies a wrap span right
/// of `before` instead, at a height within the reroll range.
pub open spec fn bone_moved(before: Bone, after: Bone) -> bool {
    &&& after.x() == bone_next_x(before.x() as int)
    &&& after.spin() == next_spin(before.spin() as int)
    &&& if bone_wraps(before.x() as int) {
        BONE_Y_MIN <= after.y() < BONE_Y_MAX
    } else {
        after.y() == before.y()
    }
}

/// Whether `bone` is one that the game creates at its start.
pub open spec fn bone_spawned(bone: Bone) -> bool {
    &&& BONE_SPAWN_X_MIN <= bone.x() < BONE_SPAWN_X_MAX
    &&& BONE_Y_MIN <= bone.y() < BONE_Y_MAX
    &&& bone.spin() < SPIN_SPAWN_MAX
}

/// The bone that the game creates from three draws: at `(x, y)`, turned by
/// `spin`.
pub fn bone_from_draws(x: i32, y: i32, spin: i32) -> (bone: Bone)
    requires
        BONE_SPAWN_X_MIN <= x < BONE_SPAWN_X_MAX,
        BONE_Y_MIN <= y < BONE_Y_MAX,
        0 <= spin < SPIN_SPAWN_MAX,
    ensures
        bone.x() == x,
        bone.y() == y,
        bone.spin() == spin,
        bone_spawned(bone),
        bone.wf(),
{
    Bone { x, y, spin: spin as u32 }
}

/// Creates the bones of the game: [`BONE_COUNT`] of them. For each bone a
/// position in the spawn rectangle and a spin of less than half a turn are
/// drawn, in this order: x, y, spin.
pub fn bone_spawner(rng: &mut StdRng) -> (bones: Vec<Bone>)
    ensures
        bones.len() == BONE_COUNT,
        forall|i: int| 0 <= i < bones.len() ==> bone_spawned(#[trigger] bones[i]) && bones[i].wf(),
{
    let mut bones: Vec<Bone> = Vec::new();
    let mut made: usize = 0;
    while made < BONE_COUNT
        invariant
            made <= BONE_COUNT,
            bones.len() == made,
            forall|i: int|
                0 <= i < bones.len() ==> bone_spawned(#[trigger] bones[i]) && bones[i].wf(),
        decreases BONE_COUNT - made,
    {
        let x: i32 = draw(rng, BONE_SPAWN_X_MIN, BONE_SPAWN_X_MAX);
        let y: i32 = draw(rng, BONE_Y_MIN, BONE_Y_MAX);
        let spin: i32 = draw(rng, 0, SPIN_SPAWN_MAX as i32);
        let bone: Bone = bone_from_draws(x, y, spin);
        bones.push(bone);
        made += 1;
    }
    bones
}

/// Moves every bone by one frame: a step to the left and a step of spin.
/// A bone whose step would cross the wrap threshold reappears a wrap span
/// further right at a newly drawn height.
pub fn bone_mover(bones: &mut Vec<Bone>, rng: &mut StdRng)
    ensures
        final(bones).len() == old(bones).len(),
        forall|i: int|
            0 <= i < old(bones).len() ==> bone_moved(old(bones)[i], #[trigger] final(bones)[i])
                && final(bones)[i].wf(),
{
    let count: usize = bones.len();
    let mut i: usize = 0;
    while i < count
        invariant
            i <= count,
            bones.len() == count,
            count == old(bones).len(),
            forall|k: int|
                0 <= k < i ==> bone_moved(old(bones)[k], #[trigger] bones[k]) && bones[k].wf(),
            forall|k: int| i <= k < count ==> bones[k] == old(bones)[k],
        decreases count - i,
    {
        let mut bone: Bone = bones[i];
        // A height is drawn only for a bone that wraps; the others ignore it.
        let reroll_y: i32 = if bone.wraps_next() {
            draw(rng, BONE_Y_MIN, BONE_Y_MAX)
        } else {
            BONE_Y_MIN
        };
        bone.advance(reroll_y);
        bones.set(i, bone);
        i += 1;
    }
}

/// A bone that touches a player lies so far left that it can jump
/// [`BONE_RESPAWN_SHIFT`] to the right and still be within reach of the game.
pub proof fn lemma_touching_bone_can_respawn(bone: Bone, player: Player)
    requires
        bone.wf(),
        player.wf(),
        bone.touches(&player),
    ensures
        bone.x() + BONE_RESPAWN_SHIFT <= BONE_X_MAX,
{
}

/// A bone that reaches the wrap threshold reappears a wrap span right of the
/// threshold or further right, by less than one step, at a height within
/// the reroll range.
pub proof fn lemma_wrapped_bone_reappears(before: Bone, after: Bone)
    requires
        before.wf(),
        bone_moved(before, after),
        bone_wraps(before.x() as int),
    ensures
        BONE_WRAP_X + BONE_WRAP_SPAN <= after.x() < BONE_WRAP_X + BONE_WRAP_SPAN + BONE_STEP,
        BONE_Y_MIN <= after.y() < BONE_Y_MAX,
{
}

/// A bone that moves never ends left of the wrap threshold, whether it
/// wrapped or not.
pub proof fn lemma_moved_bone_on_screen(before: Bone, after: Bone)
    requires
        before.wf(),
        bone_moved(before, after),
    ensures
        BONE_WRAP_X <= after.x() <= BONE_X_MAX,
{
}

/// A bone whose centre is the centre of a player's collecting box touches
/// that player.
pub proof fn lemma_bone_on_hitbox_touches(bone: Bone, player: Player)
    requires
        bone.wf(),
        player.wf(),
        bone.x() == PLAYER_X,
        bone.y() == player.y() - HITBOX_OFFSET,
    ensures
        bone.touches(&player),
{
}

/// A bone whose centre is further from the centre of a player's collecting
/// box than the sum of the half extents, on either axis, does not touch that
/// player.
pub proof fn lemma_distant_bone_misses(bone: Bone, player: Player)
    requires
        bone.wf(),
        player.wf(),
        2 * bone.bounds().gap_x(player.bone_hitbox()) > BONE_WIDTH + PLAYER_WIDTH || 2
            * bone.bounds().gap_y(player.bone_hitbox()) > BONE_HEIGHT + HITBOX_HEIGHT,
    ensures
        !bone.touches(&player),
{
}

/// A bone that a player has just collected touches no player: it cannot be
/// collected twice for one touch.
pub proof fn lemma_collected_bone_is_clear(before: Bone, after: Bone, by: Player, other: Player)
    requires
        before.wf(),
        by.wf(),
        other.wf(),
        before.touches(&by),
        after.x() == before.x() + BONE_RESPAWN_SHIFT,
    ensures
        !after.touches(&other),
{
}

/// After sixty frames a bone has the spin it started with.
pub proof fn lemma_spin_returns(spin: int)
    requires
        0 <= spin < SPIN_PER_TURN,
    ensures
        spin_after(spin, 60) == spin,
{
    lemma_spin_after(spin, 60);
}

/// Spin after `frames` frames, in closed form.
proof fn lemma_spin_after(spin: int, frames: nat)
    requires
        0 <= spin < SPIN_PER_TURN,
    ensures
        spin_after(spin, frames) == (spin + frames * SPIN_STEP) % (SPIN_PER_TURN as int),
    decreases frames,
{
    if frames > 0 {
        lemma_spin_after(spin, (frames - 1) as nat);
    }
}

} // verus!
