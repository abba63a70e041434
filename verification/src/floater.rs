//! Floaters: decoration, such as the cloud, that drifts to the left at a
//! constant speed and reappears on the right.

use vstd::prelude::*;

verus! {

/// Left threshold: a floater that gets further left than this wraps around.
pub const FLOATER_WRAP_X: i32 = -800_000;

/// Distance by which a wrapping floater jumps to the right.
pub const FLOATER_WRAP_SPAN: i32 = 1_600_000;

/// Rightmost position of a floater: a wrap span right of the threshold.
pub const FLOATER_X_MAX: i32 = 800_000;

/// Horizontal position at which the cloud starts.
pub const CLOUD_X: i32 = 800_000;

/// Height of the cloud.
pub const CLOUD_Y: i32 = 300_000;

/// Drift of the cloud per frame: a fifth of a pixel.
pub const CLOUD_SPEED: i32 = 200;

/// Horizontal position, one frame later, of a floater at `x` with speed
/// `speed`: `speed` further left, and a wrap span to the right if that
/// crossed the threshold.
pub open spec fn floater_next_x(x: int, speed: int) -> int {
    if x - speed < FLOATER_WRAP_X {
        x - speed + FLOATER_WRAP_SPAN
    } else {
        x - speed
    }
}

/// Whether the game can have a floater at `x` with speed `speed`.
pub open spec fn floater_fits(x: int, speed: int) -> bool {
    &&& FLOATER_WRAP_X <= x <= FLOATER_X_MAX
    &&& 0 <= speed <= FLOATER_WRAP_SPAN
}

/// A floater. It stays between the wrap threshold and [`FLOATER_X_MAX`] and
/// moves no faster than one wrap span per frame. Its height never changes.
#[derive(Clone, Copy, Debug, PartialEq, Eq, Structural)]
pub struct Floater {
    x: i32,
    y: i32,
    speed: i32,
}

impl Floater {
    /// Horizontal position of the floater.
    pub closed spec fn spec_x(&self) -> i32 {
        self.x
    }

    /// Height of the floater.
    pub closed spec fn spec_y(&self) -> i32 {
        self.y
    }

    /// Distance that the floater drifts per frame.
    pub closed spec fn spec_speed(&self) -> i32 {
        self.speed
    }

    /// The floater lies where the game can have one.
    #[verifier::type_invariant]
    pub open spec fn wf(&self) -> bool {
        floater_fits(self.spec_x() as int, self.spec_speed() as int)
    }

    /// A floater at `(x, y)` with speed `speed`, if the game can have one
    /// there.
    pub fn new(x: i32, y: i32, speed: i32) -> (floater: Option<Floater>)
        ensures
            floater.is_some() <==> floater_fits(x as int, speed as int),
            floater matches Some(f) ==> f.x() == x && f.y() == y && f.speed() == speed && f.wf(),
    {
        if FLOATER_WRAP_X <= x && x <= FLOATER_X_MAX && 0 <= speed && speed <= FLOATER_WRAP_SPAN {
            Some(Floater { x, y, speed })
        } else {
            None
        }
    }

    /// Horizontal position of the floater.
    #[verifier::when_used_as_spec(spec_x)]
    pub fn x(&self) -> (x: i32)
        ensures
            x == self.spec_x(),
            FLOATER_WRAP_X <= x <= FLOATER_X_MAX,
    {
        proof {
            use_type_invariant(self);
        }
        self.x
    }

    /// Height of the floater.
    #[verifier::when_used_as_spec(spec_y)]
    pub fn y(&self) -> (y: i32)
        ensures
            y == self.spec_y(),
    {
        self.y
    }

    /// Distance that the floater drifts per frame.
    #[verifier::when_used_as_spec(spec_speed)]
    pub fn speed(&self) -> (speed: i32)
        ensures
            speed == self.spec_speed(),
            0 <= speed <= FLOATER_WRAP_SPAN,
    {
        proof {
            use_type_invariant(self);
        }
        self.speed
    }

    /// Moves the floater by one frame: its speed to the left, and a wrap
    /// span to the right if that crossed the wrap threshold.
    pub fn advance(&mut self)
        ensures
            floater_moved(*old(self), *final(self)),
            final(self).wf(),
    {
        proof {
            use_type_invariant(&*self);
        }
        let stepped: i32 = self.x - self.speed;
        if stepped < FLOATER_WRAP_X {
            *self = Floater { x: stepped + FLOATER_WRAP_SPAN, y: self.y, speed: self.speed };
        } else {
            *self = Floater { x: stepped, y: self.y, speed: self.speed };
        }
    }
}

/// What one frame of drifting makes of a floater: `after` is `before` its
/// speed further left, and a wrap span further right if that crossed the
/// wrap threshold. Height and speed stay.
pub open spec fn floater_moved(before: Floater, after: Floater) -> bool {
    &&& after.x() == floater_next_x(before.x() as int, before.speed() as int)
    &&& after.y() == before.y()
    &&& after.speed() == before.speed()
}

/// The cloud as the game starts.
pub fn spawn_cloud() -> (cloud: Floater)
    ensures
        cloud.x() == CLOUD_X,
        cloud.y() == CLOUD_Y,
        cloud.speed() == CLOUD_SPEED,
        cloud.wf(),
{
    Floater { x: CLOUD_X, y: CLOUD_Y, speed: CLOUD_SPEED }
}

/// Moves every floater by one frame. Despite its name the drift goes to the
/// left; a floater that crosses the wrap threshold reappears on the right.
pub fn float_right(floaters: &mut Vec<Floater>)
    ensures
        final(floaters).len() == old(floaters).len(),
        forall|i: int|
            0 <= i < old(floaters).len() ==> floater_moved(
                old(floaters)[i],
                #[trigger] final(floaters)[i],
            ) && final(floaters)[i].wf(),
{
    let count: usize = floaters.len();
    let mut i: usize = 0;
    while i < count
        invariant
            i <= count,
            floaters.len() == count,
            count == old(floaters).len(),
            forall|k: int|
                0 <= k < i ==> floater_moved(old(floaters)[k], #[trigger] floaters[k])
                    && floaters[k].wf(),
            forall|k: int| i <= k < count ==> floaters[k] == old(floaters)[k],
        decreases count - i,
    {
        let mut floater: Floater = floaters[i];
        floater.advance();
        floaters.set(i, floater);
        i += 1;
    }
}

} // verus!
