//! Hawks: the obstacles. In every frame a new one may appear at the right
//! edge; each flies to the left at its own speed and reappears on the right
//! once it has left the screen.

use crate::aabb::{collide, Aabb};
use crate::player::Player;
use crate::random::draw;
use rand::rngs::StdRng;
use vstd::prelude::*;

verus! {

/// Width and height of a hawk.
pub const HAWK_SIZE: i32 = 60_000;

/// Horizontal position at which a hawk appears.
pub const HAWK_SPAWN_X: i32 = 800_000;

/// Lowest height at which a hawk appears.
pub const HAWK_SPAWN_Y_MIN: i32 = -200_000;

/// A hawk appears below this height.
pub const HAWK_SPAWN_Y_MAX: i32 = 400_000;

/// Slowest flight of a hawk, per frame.
pub const HAWK_SPEED_MIN: i32 = 2_500;

/// A hawk flies less than this far per frame.
pub const HAWK_SPEED_MAX: i32 = 4_500;

/// Left threshold: a hawk that gets further left than this wraps around.
pub const HAWK_WRAP_X: i32 = -800_000;

/// Distance by which a wrapping hawk jumps to the right.
pub const HAWK_WRAP_SPAN: i32 = 1_600_000;

/// Lowest height of a hawk that wraps around.
pub const HAWK_Y_MIN: i32 = -300_000;

/// A hawk that wraps around gets a height below this one.
pub const HAWK_Y_MAX: i32 = 350_000;

/// The spawn roll of a frame is drawn from zero up to, but not including,
/// this value.
pub const HAWK_ROLL_RANGE: i32 = 1_000_000;

/// A hawk appears in the frames whose spawn roll exceeds this value.
pub const HAWK_ROLL_THRESHOLD: i32 = 999_000;

/// Whether a hawk at `x` with speed `speed` leaves the screen with its next
/// step.
pub open spec fn hawk_wraps(x: int, speed: int) -> bool {
    x - speed < HAWK_WRAP_X
}

/// Horizontal position, one frame later, of a hawk at `x` with speed
/// `speed`: `speed` further left, and a wrap span to the right if that
/// crossed the threshold.
pub open spec fn hawk_next_x(x: int, speed: int) -> int {
    if hawk_wraps(x, speed) {
        x - speed + HAWK_WRAP_SPAN
    } else {
        x - speed
    }
}

/// Whether a frame with the spawn roll `roll` brings a new hawk: the roll
/// must exceed [`HAWK_ROLL_THRESHOLD`].
pub open spec fn roll_spawns(roll: int) -> bool {
    roll > HAWK_ROLL_THRESHOLD
}

/// Whether the game can have a hawk at `(x, y)` with speed `speed`.
pub open spec fn hawk_fits(x: int, y: int, speed: int) -> bool {
    &&& HAWK_WRAP_X <= x <= HAWK_SPAWN_X
    &&& HAWK_Y_MIN <= y < HAWK_SPAWN_Y_MAX
    &&& HAWK_SPEED_MIN <= speed < HAWK_SPEED_MAX
}

/// A hawk. It stays between the wrap threshold and the spawn position, at a
/// height that the spawn or a reroll can give, and keeps its speed.
#[derive(Clone, Copy, Debug, PartialEq, Eq, Structural)]
pub struct Hawk {
    x: i32,
    y: i32,
    speed: i32,
}

impl Hawk {
    /// Horizontal position of the hawk's centre.
    pub closed spec fn spec_x(&self) -> i32 {
        self.x
    }

    /// Height of the hawk's centre.
    pub closed spec fn spec_y(&self) -> i32 {
        self.y
    }

    /// Distance that the hawk flies per frame.
    pub closed spec fn spec_speed(&self) -> i32 {
        self.speed
    }

    /// The hawk lies where the game can have one.
    #[verifier::type_invariant]
    pub open spec fn wf(&self) -> bool {
        hawk_fits(self.spec_x() as int, self.spec_y() as int, self.spec_speed() as int)
    }

    /// A hawk at `(x, y)` with speed `speed`, if the game can have one there.
    pub fn new(x: i32, y: i32, speed: i32) -> (hawk: Option<Hawk>)
        ensures
            hawk.is_some() <==> hawk_fits(x as int, y as int, speed as int),
            hawk matches Some(h) ==> h.x() == x && h.y() == y && h.speed() == speed && h.wf(),
    {
        if HAWK_WRAP_X <= x && x <= HAWK_SPAWN_X && HAWK_Y_MIN <= y && y < HAWK_SPAWN_Y_MAX
            && HAWK_SPEED_MIN <= speed && speed < HAWK_SPEED_MAX {
            Some(Hawk { x, y, speed })
        } else {
            None
        }
    }

    /// Horizontal position of the hawk's centre.
    #[verifier::when_used_as_spec(spec_x)]
    pub fn x(&self) -> (x: i32)
        ensures
            x == self.spec_x(),
            HAWK_WRAP_X <= x <= HAWK_SPAWN_X,
    {
        proof {
            use_type_invariant(self);
        }
        self.x
    }

    /// Height of the hawk's centre.
    #[verifier::when_used_as_spec(spec_y)]
    pub fn y(&self) -> (y: i32)
        ensures
            y == self.spec_y(),
            HAWK_Y_MIN <= y < HAWK_SPAWN_Y_MAX,
    {
        proof {
            use_type_invariant(self);
        }
        self.y
    }

    /// Distance that the hawk flies per frame.
    #[verifier::when_used_as_spec(spec_speed)]
    pub fn speed(&self) -> (speed: i32)
        ensures
            speed == self.spec_speed(),
            HAWK_SPEED_MIN <= speed < HAWK_SPEED_MAX,
    {
        proof {
            use_type_invariant(self);
        }
        self.speed
    }

    /// The box of the hawk: its size around its centre.
    pub open spec fn spec_bounds(&self) -> Aabb {
        Aabb { x: self.x(), y: self.y(), width: HAWK_SIZE, height: HAWK_SIZE }
    }

    /// The box of the hawk.
    #[verifier::when_used_as_spec(spec_bounds)]
    pub fn bounds(&self) -> (bounds: Aabb)
        ensures
            bounds == self.spec_bounds(),
    {
        Aabb { x: self.x, y: self.y, width: HAWK_SIZE, height: HAWK_SIZE }
    }

    /// Whether the hawk's box overlaps the box in which hawks strike
    /// `player`.
    pub open spec fn spec_strikes(&self, player: &Player) -> bool {
        self.bounds().overlaps(player.hawk_hitbox())
    }

    /// Whether the hawk's box overlaps the box in which hawks strike
    /// `player`.
    #[verifier::when_used_as_spec(spec_strikes)]
    pub fn strikes(&self, player: &Player) -> (hit: bool)
        ensures
            hit == self.spec_strikes(player),
    {
        let mine: Aabb = self.bounds();
        let theirs: Aabb = player.hawk_hitbox();
        collide(&mine, &theirs)
    }

    /// Whether the hawk leaves the screen with its next step.
    pub fn wraps_next(&self) -> (wraps: bool)
        ensures
            wraps == hawk_wraps(self.x() as int, self.speed() as int),
    {
        proof {
            use_type_invariant(self);
        }
        self.x - self.speed < HAWK_WRAP_X
    }

    /// Moves the hawk by one frame: its speed to the left. A hawk that
    /// crosses the wrap threshold jumps a wrap span to the right and takes
    /// the height `reroll_y`; otherwise `reroll_y` is not used.
    pub fn advance(&mut self, reroll_y: i32)
        requires
            HAWK_Y_MIN <= reroll_y < HAWK_Y_MAX,
        ensures
            final(self).x() == hawk_next_x(old(self).x() as int, old(self).speed() as int),
            final(self).y() == if hawk_wraps(old(self).x() as int, old(self).speed() as int) {
                reroll_y
            } else {
                old(self).y()
            },
            final(self).speed() == old(self).speed(),
            final(self).wf(),
    {
        proof {
            use_type_invariant(&*self);
        }
        let stepped: i32 = self.x - self.speed;
        if stepped < HAWK_WRAP_X {
            *self = Hawk { x: stepped + HAWK_WRAP_SPAN, y: reroll_y, speed: self.speed };
        } else {
            *self = Hawk { x: stepped, y: self.y, speed: self.speed };
        }
    }
}

/// What one frame of flight makes of a hawk: `after` is `before` its speed
/// further left; if that crossed the wrap threshold, `after` lies a wrap
/// span further right at a height within the reroll range, else it kept its
/// height. The speed stays.
pub open spec fn hawk_moved(before: Hawk, after: Hawk) -> bool {
    &&& after.x() == hawk_next_x(before.x() as int, before.speed() as int)
    &&& after.speed() == before.speed()
    &&& if hawk_wraps(before.x() as int, before.speed() as int) {
        HAWK_Y_MIN <= after.y() < HAWK_Y_MAX
    } else {
        after.y() == before.y()
    }
}

/// Whether `hawk` is one as the game creates them: at the spawn position,
/// at a height and with a speed within the spawn ranges.
pub open spec fn hawk_spawned(hawk: Hawk) -> bool {
    &&& hawk.x() == HAWK_SPAWN_X
    &&& HAWK_SPAWN_Y_MIN <= hawk.y() < HAWK_SPAWN_Y_MAX
    &&& HAWK_SPEED_MIN <= hawk.speed() < HAWK_SPEED_MAX
}

/// Whether a frame with the spawn roll `roll` brings a new hawk.
pub fn hawk_roll_spawns(roll: i32) -> (spawns: bool)
    ensures
        spawns == roll_spawns(roll as int),
{
    roll > HAWK_ROLL_THRESHOLD
}

/// The hawk that the game creates from two draws: at the right edge, at
/// the height `y`, flying `speed` per frame.
pub fn hawk_from_draws(y: i32, speed: i32) -> (hawk: Hawk)
    requires
        HAWK_SPAWN_Y_MIN <= y < HAWK_SPAWN_Y_MAX,
        HAWK_SPEED_MIN <= speed < HAWK_SPEED_MAX,
    ensures
        hawk.x() == HAWK_SPAWN_X,
        hawk.y() == y,
        hawk.speed() == speed,
        hawk_spawned(hawk),
        hawk.wf(),
{
    Hawk { x: HAWK_SPAWN_X, y, speed }
}

/// Creates a hawk at the right edge. Its height and its speed are drawn, in
/// this order.
pub fn spawn_hawk(rng: &mut StdRng) -> (hawk: Hawk)
    ensures
        hawk_spawned(hawk),
        hawk.wf(),
{
    let y: i32 = draw(rng, HAWK_SPAWN_Y_MIN, HAWK_SPAWN_Y_MAX);
    let speed: i32 = draw(rng, HAWK_SPEED_MIN, HAWK_SPEED_MAX);
    hawk_from_draws(y, speed)
}

/// What a frame makes of the hawks when it brings a new one: the new hawk
/// stands behind those that were there, and is one as the game creates
/// them.
pub open spec fn hawk_joined(before: Seq<Hawk>, after: Seq<Hawk>) -> bool {
    &&& after.len() == before.len() + 1
    &&& after.drop_last() == before
    &&& hawk_spawned(after.last())
    &&& after.last().wf()
}

/// Acts on the spawn roll of a frame: a roll that exceeds the threshold
/// adds a newly created hawk behind the hawks that are already there, any
/// other roll leaves them as they are.
pub fn hawk_arrives(hawks: &mut Vec<Hawk>, roll: i32, rng: &mut StdRng)
    ensures
        roll_spawns(roll as int) ==> hawk_joined(old(hawks)@, final(hawks)@),
        !roll_spawns(roll as int) ==> final(hawks)@ == old(hawks)@,
{
    if hawk_roll_spawns(roll) {
        let hawk: Hawk = spawn_hawk(rng);
        hawks.push(hawk);
        assert(hawks@.drop_last() == old(hawks)@);
    }
}

/// Rolls for a new hawk and acts on the roll: the frame either leaves the
/// hawks as they are or adds one. No hawk ever leaves.
pub fn hawk_spawner(hawks: &mut Vec<Hawk>, rng: &mut StdRng)
    ensures
        final(hawks)@ == old(hawks)@ || hawk_joined(old(hawks)@, final(hawks)@),
{
    let roll: i32 = draw(rng, 0, HAWK_ROLL_RANGE);
    hawk_arrives(hawks, roll, rng);
}

/// Moves every hawk by one frame: its speed to the left. A hawk that crosses
/// the wrap threshold reappears a wrap span further right at a newly drawn
/// height.
pub fn hawk_mover(hawks: &mut Vec<Hawk>, rng: &mut StdRng)
    ensures
        final(hawks).len() == old(hawks).len(),
        forall|i: int|
            0 <= i < old(hawks).len() ==> hawk_moved(old(hawks)[i], #[trigger] final(hawks)[i])
                && final(hawks)[i].wf(),
{
    let count: usize = hawks.len();
    let mut i: usize = 0;
    while i < count
        invariant
            i <= count,
            hawks.len() == count,
            count == old(hawks).len(),
            forall|k: int|
                0 <= k < i ==> hawk_moved(old(hawks)[k], #[trigger] hawks[k]) && hawks[k].wf(),
            forall|k: int| i <= k < count ==> hawks[k] == old(hawks)[k],
        decreases count - i,
    {
        let mut hawk: Hawk = hawks[i];
        // A height is drawn only for a hawk that wraps; the others ignore it.
        let reroll_y: i32 = if hawk.wraps_next() {
            draw(rng, HAWK_Y_MIN, HAWK_Y_MAX)
        } else {
            HAWK_Y_MIN
        };
        hawk.advance(reroll_y);
        hawks.set(i, hawk);
        i += 1;
    }
}

/// The rolls of a frame that bring a hawk.
pub open spec fn spawning_rolls() -> Set<int> {
    Set::new(|roll: int| 0 <= roll < HAWK_ROLL_RANGE && roll_spawns(roll))
}

/// Of the [`HAWK_ROLL_RANGE`] rolls that a frame can draw, exactly 999 bring
/// a hawk: with every roll as likely as any other, that is a chance of just
/// under one in a thousand per frame.
pub proof fn lemma_spawning_rolls()
    ensures
        spawning_rolls().finite(),
        spawning_rolls().len() == 999,
{
    vstd::set_lib::lemma_int_range(HAWK_ROLL_THRESHOLD + 1, HAWK_ROLL_RANGE as int);
    assert(spawning_rolls() =~= vstd::set_lib::set_int_range(
        HAWK_ROLL_THRESHOLD + 1,
        HAWK_ROLL_RANGE as int,
    ));
}

/// A hawk that crosses the wrap threshold reappears right of the screen's
/// middle, no further right than hawks appear, at a height within the
/// reroll range.
pub proof fn lemma_wrapped_hawk_reappears(before: Hawk, after: Hawk)
    requires
        before.wf(),
        hawk_moved(before, after),
        hawk_wraps(before.x() as int, before.speed() as int),
    ensures
        HAWK_WRAP_X + HAWK_WRAP_SPAN - HAWK_SPEED_MAX < after.x() < HAWK_WRAP_X + HAWK_WRAP_SPAN,
        HAWK_Y_MIN <= after.y() < HAWK_Y_MAX,
{
}

} // verus!
