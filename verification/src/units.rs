//! Fixed-point units and the shared clamp used at every input boundary.
//!
//! Every physical quantity in the library is a signed count of
//! thousandths: a stored value of `SCALE` (1000) stands for 1.0, so
//! 800 rpm is stored as 800_000 and a half-pressed pedal as 500.

use vstd::prelude::*;

verus! {

/// Fixed-point scale: 1000 stored units stand for 1.0 of the physical unit.
pub const SCALE: i64 = 1000;

/// Idle target: 800 rpm, the floor of the target-rpm map.
pub const IDLE_RPM: i64 = 800_000;

/// Slope of the target-rpm map: a full throttle (`SCALE`) raises the
/// target by 8000 rpm, so the ceiling is 8800 rpm.
pub const RPM_PER_THROTTLE_UNIT: i64 = 8000;

/// Below 300 rpm the running engine stalls and its rpm is forced to 0.
pub const MIN_RPM_THRESHOLD: i64 = 300_000;

/// A restart intent puts the engine just above the stall threshold
/// (300.1 rpm), so the next ticks pull it back toward the idle target.
pub const RESTART_RPM: i64 = 300_100;

/// Default hard rpm ceiling (7000 rpm) for the saturating engine mode.
pub const DEFAULT_MAX_RPM: i64 = 7_000_000;

/// In the stall mode the rpm has no configured ceiling, but the dynamics
/// keep it under this bound: an accelerating step starts below the target
/// (at most 8_800_000) and adds at most rpm / 20 + 10_000.
pub const RUNNING_RPM_CAP: i64 = 9_250_000;

/// Machine bound on rpm values fed into the torque and load formulas;
/// it keeps every intermediate product within `i64`.
pub const RPM_LIMIT: i64 = 1_000_000_000_000;

/// Machine bound on a single gear ratio (a ratio of 100.0), far above the
/// fixed table's maximum of 3.0; it keeps the torque products within `i64`.
pub const RATIO_LIMIT: i64 = 100_000;

/// Bound on the torque that the formulas can produce under `RPM_LIMIT`
/// and `RATIO_LIMIT`: `RPM_LIMIT / SCALE * RATIO_LIMIT`.
pub const TORQUE_LIMIT: i64 = 100_000_000_000_000;

/// Bound on the simulated speed: the target speed is at most
/// `TORQUE_LIMIT / 10`, and one step climbs at most `SCALE / 10`
/// above it.
pub const SPEED_LIMIT: i64 = 10_000_000_000_100;

/// A raw input clamped to the unit interval `[0, SCALE]`.
pub open spec fn clamp_unit_spec(v: int) -> int {
    if v < 0 {
        0
    } else if v > SCALE {
        SCALE as int
    } else {
        v
    }
}

/// Clamp a raw operator input to the unit interval `[0, SCALE]`.
pub fn clamp_unit(v: i64) -> (r: i64)
    ensures
        r == clamp_unit_spec(v as int),
{
    if v < 0 {
        0
    } else if v > SCALE {
        SCALE
    } else {
        v
    }
}

/// Clamping law: every clamped input lies in `[0, SCALE]`; an in-range
/// input is stored unchanged, a negative one as 0, an excessive one as
/// `SCALE`. Every setter of the library stores `clamp_unit_spec` of its
/// argument, so this covers them all.
pub proof fn lemma_clamp_unit(v: int)
    ensures
        0 <= clamp_unit_spec(v) <= SCALE,
        0 <= v <= SCALE ==> clamp_unit_spec(v) == v,
        v < 0 ==> clamp_unit_spec(v) == 0,
        v > SCALE ==> clamp_unit_spec(v) == SCALE,
{
}

} // verus!
