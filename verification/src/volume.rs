//! Output gain in thousandths of full scale.

use vstd::prelude::*;

verus! {

/// Size of one volume step, in thousandths.
pub const VOLUME_STEP: i32 = 100;

/// Full scale, in thousandths.
pub const VOLUME_MAX: i32 = 1000;

/// The gain of a player for which none is configured, in thousandths.
pub const VOLUME_DEFAULT: i32 = 700;

/// What one step up makes of a gain: a step more, but never more than
/// full scale.
pub open spec fn raised(millis: int) -> int {
    if millis + VOLUME_STEP >= VOLUME_MAX {
        VOLUME_MAX as int
    } else {
        millis + VOLUME_STEP
    }
}

/// What one step down makes of a gain: a step less, but never less than
/// nothing.
pub open spec fn lowered(millis: int) -> int {
    if millis - VOLUME_STEP <= 0 {
        0
    } else {
        millis - VOLUME_STEP
    }
}

/// An output gain, counted in thousandths: 1000 is full scale, 0 is silence.
#[derive(Clone, Copy, Debug, PartialEq, Eq, Structural)]
pub struct Volume {
    pub millis: i32,
}

impl Volume {
    /// Whether the gain lies between silence and full scale.
    pub open spec fn in_range(self) -> bool {
        0 <= self.millis <= VOLUME_MAX
    }

    /// The gain one step up.
    pub open spec fn step_up(self) -> Volume {
        Volume { millis: raised(self.millis as int) as i32 }
    }

    /// The gain one step down.
    pub open spec fn step_down(self) -> Volume {
        Volume { millis: lowered(self.millis as int) as i32 }
    }

    /// One step louder, stopping at full scale.
    pub fn raised(self) -> (v: Volume)
        ensures
            v == self.step_up(),
            v.millis == raised(self.millis as int),
    {
        if self.millis >= VOLUME_MAX - VOLUME_STEP {
            Volume { millis: VOLUME_MAX }
        } else {
            Volume { millis: self.millis + VOLUME_STEP }
        }
    }

    /// One step quieter, stopping at silence.
    pub fn lowered(self) -> (v: Volume)
        ensures
            v == self.step_down(),
            v.millis == lowered(self.millis as int),
    {
        if self.millis <= VOLUME_STEP {
            Volume { millis: 0 }
        } else {
            Volume { millis: self.millis - VOLUME_STEP }
        }
    }
}

/// Steps are clamped: a step up never ends above full scale, a step down
/// never below silence, and a gain in range stays in range and moves by no
/// more than one step, in the direction asked for.
pub proof fn lemma_steps_are_clamped(v: Volume)
    ensures
        v.step_up().millis <= VOLUME_MAX,
        v.step_down().millis >= 0,
        v.in_range() ==> v.step_up().in_range() && v.step_down().in_range(),
        v.in_range() ==> v.millis <= v.step_up().millis <= v.millis + VOLUME_STEP,
        v.in_range() ==> v.millis - VOLUME_STEP <= v.step_down().millis <= v.millis,
{
}

/// Steps keep the order of gains: of two gains, the louder is at least as
/// loud as the other after the same step.
pub proof fn lemma_steps_are_monotonic(a: Volume, b: Volume)
    requires
        a.millis <= b.millis,
    ensures
        a.step_up().millis <= b.step_up().millis,
        a.step_down().millis <= b.step_down().millis,
{
}

/// At either end a further step changes nothing.
pub proof fn lemma_steps_stop_at_the_ends()
    ensures
        (Volume { millis: VOLUME_MAX }).step_up() == (Volume { millis: VOLUME_MAX }),
        (Volume { millis: 0 }).step_down() == (Volume { millis: 0 }),
{
}

} // verus!
