//! The clutch: a value holder for the torque-coupling fraction between
//! engine and drivetrain, clamped to the unit interval on every write.

use vstd::prelude::*;
use crate::units::{SCALE, clamp_unit, clamp_unit_spec};

verus! {

/// Torque coupling between engine and drivetrain, from 0 (fully
/// disengaged, no transfer) to `SCALE` (fully engaged).
pub struct Clutch {
    pub engagement: i64,
}

impl View for Clutch {
    type V = int;

    open spec fn view(&self) -> int {
        self.engagement as int
    }
}

impl Clutch {
    /// The engagement always lies in the unit interval.
    pub open spec fn wf(self) -> bool {
        0 <= self.engagement <= SCALE
    }

    /// A fresh clutch is fully engaged.
    pub fn new() -> (c: Clutch)
        ensures
            c.engagement == SCALE,
            c.wf(),
    {
        Clutch { engagement: SCALE }
    }

    /// Store the engagement, clamped to `[0, SCALE]`. Succeeds on every
    /// input; an in-range value is stored unchanged.
    pub fn set_engagement(&mut self, amount: i64)
        ensures
            final(self).engagement == clamp_unit_spec(amount as int),
            final(self).wf(),
    {
        self.engagement = clamp_unit(amount);
    }
}

} // verus!
