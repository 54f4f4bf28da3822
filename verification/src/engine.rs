//! The engine: rpm state and throttle position, advanced once per tick
//! against an external drivetrain load.
//!
//! Two modes exist behind the `stall_enabled` flag. When it is set the
//! canonical inertia model runs: the rpm moves toward a throttle-derived
//! target, and falling under `MIN_RPM_THRESHOLD` stalls the engine to
//! exactly 0. When it is clear the simpler saturating model runs: updates
//! clamp the rpm into `[0, max_rpm]` and there is no stall discontinuity.

use vstd::prelude::*;
use crate::clutch::Clutch;
use crate::units::{
    SCALE, IDLE_RPM, RPM_PER_THROTTLE_UNIT, MIN_RPM_THRESHOLD, DEFAULT_MAX_RPM,
    RUNNING_RPM_CAP, RPM_LIMIT, clamp_unit, clamp_unit_spec,
};

verus! {

/// Engine state. `target_rpm` and `engine_inertia` are derived anew on
/// every `update_rpm` call; they are kept as fields so a snapshot can
/// report them.
#[derive(Clone, Copy)]
pub struct Engine {
    pub current_rpm: i64,
    pub target_rpm: i64,
    pub throttle_position: i64,
    pub engine_inertia: i64,
    pub stall_enabled: bool,
    pub max_rpm: i64,
}

/// Mathematical model of an engine: the same fields over `int`.
pub struct EngineModel {
    pub current_rpm: int,
    pub target_rpm: int,
    pub throttle_position: int,
    pub engine_inertia: int,
    pub stall_enabled: bool,
    pub max_rpm: int,
}

impl View for Engine {
    type V = EngineModel;

    open spec fn view(&self) -> EngineModel {
        EngineModel {
            current_rpm: self.current_rpm as int,
            target_rpm: self.target_rpm as int,
            throttle_position: self.throttle_position as int,
            engine_inertia: self.engine_inertia as int,
            stall_enabled: self.stall_enabled,
            max_rpm: self.max_rpm as int,
        }
    }
}

/// Target rpm derived from the throttle: idle floor 800 rpm, full
/// throttle 8800 rpm.
pub open spec fn spec_target_rpm(throttle: int) -> int {
    IDLE_RPM + throttle * RPM_PER_THROTTLE_UNIT
}

/// Inertia: resistance to rpm change, one twentieth (0.05) of the
/// current rpm.
pub open spec fn spec_inertia(rpm: int) -> int {
    rpm / 20
}

impl EngineModel {
    /// The rpm never exceeds this: the configured ceiling in the
    /// saturating mode, and in the stall mode the bound that the
    /// dynamics themselves keep (see `RUNNING_RPM_CAP`).
    pub open spec fn rpm_cap(self) -> int {
        if self.stall_enabled {
            RUNNING_RPM_CAP as int
        } else {
            self.max_rpm
        }
    }

    pub open spec fn wf(self) -> bool {
        &&& 0 <= self.throttle_position <= SCALE
        &&& 0 <= self.current_rpm <= self.rpm_cap()
        &&& 0 <= self.max_rpm <= RPM_LIMIT
        &&& (self.stall_enabled ==> self.max_rpm <= RUNNING_RPM_CAP)
    }
}

/// The raw rpm after one update step, before the stall rule or the
/// saturating clamp: accelerate toward the target (resisted by the load,
/// helped by the inertia deficit and the throttle) or decelerate past it
/// (dragged by inertia and load); exactly on target nothing moves.
pub open spec fn spec_moved_rpm(e: EngineModel, load: int) -> int {
    let target = spec_target_rpm(e.throttle_position);
    let inertia = spec_inertia(e.current_rpm);
    let difference = target - e.current_rpm;
    if difference > 0 {
        e.current_rpm + inertia + e.throttle_position * 10 - load
    } else if difference < 0 {
        e.current_rpm - inertia - load
    } else {
        e.current_rpm
    }
}

/// One canonical rpm update against an external load: derive the target
/// and the inertia, move the rpm (`spec_moved_rpm`), then either apply
/// the stall rule (stall mode) or clamp into `[0, max_rpm]`
/// (saturating mode).
pub open spec fn spec_update_rpm(e: EngineModel, load: int) -> EngineModel {
    let target = spec_target_rpm(e.throttle_position);
    let inertia = spec_inertia(e.current_rpm);
    let moved = spec_moved_rpm(e, load);
    let settled = if e.stall_enabled {
        if moved < MIN_RPM_THRESHOLD {
            0
        } else {
            moved
        }
    } else {
        if moved < 0 {
            0
        } else if moved > e.max_rpm {
            e.max_rpm
        } else {
            moved
        }
    };
    EngineModel { current_rpm: settled, target_rpm: target, engine_inertia: inertia, ..e }
}

/// Stall-discontinuity law: in the stall mode, whenever an update step
/// computes a raw rpm under `MIN_RPM_THRESHOLD`, the stored rpm is
/// exactly 0 — never a value clamped toward the threshold; and a raw
/// rpm at or above the threshold is stored unchanged.
pub proof fn lemma_stall_discontinuity(e: EngineModel, load: int)
    requires
        e.stall_enabled,
    ensures
        spec_moved_rpm(e, load) < MIN_RPM_THRESHOLD
            ==> spec_update_rpm(e, load).current_rpm == 0,
        spec_moved_rpm(e, load) >= MIN_RPM_THRESHOLD
            ==> spec_update_rpm(e, load).current_rpm == spec_moved_rpm(e, load),
{
}

/// One saturating rpm update through the clutch, for the simpler model
/// with no transmission: a no-op while the clutch is fully disengaged,
/// otherwise throttle, brake and load act scaled by the engagement and
/// the rpm saturates into `[0, max_rpm]`.
pub open spec fn spec_update_rpm_with_clutch(
    e: EngineModel,
    engagement: int,
    throttle: int,
    brake: int,
    load: int,
) -> EngineModel {
    if engagement <= 0 {
        e
    } else {
        let throttle_effect = throttle * engagement / 100;
        let brake_effect = brake * engagement / 50;
        let load_effect = load * engagement / (SCALE as int);
        let moved = e.current_rpm + throttle_effect - brake_effect - load_effect;
        let settled = if moved < 0 {
            0
        } else if moved > e.max_rpm {
            e.max_rpm
        } else {
            moved
        };
        EngineModel { current_rpm: settled, ..e }
    }
}

impl Engine {
    /// A fresh canonical engine: idling at 800 rpm, throttle released,
    /// stall rule enabled.
    pub fn new() -> (e: Engine)
        ensures
            e@ == (EngineModel {
                current_rpm: IDLE_RPM as int,
                target_rpm: IDLE_RPM as int,
                throttle_position: 0,
                engine_inertia: 0,
                stall_enabled: true,
                max_rpm: DEFAULT_MAX_RPM as int,
            }),
            e@.wf(),
    {
        Engine {
            current_rpm: IDLE_RPM,
            target_rpm: IDLE_RPM,
            throttle_position: 0,
            engine_inertia: 0,
            stall_enabled: true,
            max_rpm: DEFAULT_MAX_RPM,
        }
    }

    /// A fresh saturating engine with a configured hard rpm ceiling,
    /// starting at rest: the degenerate mode with no stall rule.
    pub fn with_max_rpm(max_rpm: i64) -> (e: Engine)
        requires
            0 <= max_rpm <= RPM_LIMIT,
        ensures
            e@ == (EngineModel {
                current_rpm: 0,
                target_rpm: 0,
                throttle_position: 0,
                engine_inertia: 0,
                stall_enabled: false,
                max_rpm: max_rpm as int,
            }),
            e@.wf(),
    {
        Engine {
            current_rpm: 0,
            target_rpm: 0,
            throttle_position: 0,
            engine_inertia: 0,
            stall_enabled: false,
            max_rpm,
        }
    }

    /// Store the throttle position, clamped to `[0, SCALE]`. Succeeds on
    /// every input.
    pub fn apply_throttle(&mut self, position: i64)
        ensures
            final(self)@ == (EngineModel {
                throttle_position: clamp_unit_spec(position as int),
                ..old(self)@
            }),
            old(self)@.wf() ==> final(self)@.wf(),
    {
        self.throttle_position = clamp_unit(position);
    }

    /// Raise the rpm by `amount`, saturating at the configured ceiling.
    pub fn increase_rpm(&mut self, amount: i64)
        requires
            old(self)@.wf(),
            0 <= amount <= RPM_LIMIT,
        ensures
            final(self)@ == (EngineModel {
                current_rpm: if old(self)@.current_rpm + amount > old(self)@.max_rpm {
                    old(self)@.max_rpm
                } else {
                    old(self)@.current_rpm + amount
                },
                ..old(self)@
            }),
            final(self)@.wf(),
    {
        let raised = self.current_rpm + amount;
        self.current_rpm = if raised > self.max_rpm {
            self.max_rpm
        } else {
            raised
        };
    }

    /// Lower the rpm by `amount`, saturating at 0.
    pub fn decrease_rpm(&mut self, amount: i64)
        requires
            old(self)@.wf(),
            0 <= amount,
        ensures
            final(self)@ == (EngineModel {
                current_rpm: if old(self)@.current_rpm - amount < 0 {
                    0
                } else {
                    old(self)@.current_rpm - amount
                },
                ..old(self)@
            }),
            final(self)@.wf(),
    {
        let lowered = self.current_rpm - amount;
        self.current_rpm = if lowered < 0 { 0 } else { lowered };
    }

    /// Advance the rpm one tick against a non-negative external load:
    /// the canonical update of `spec_update_rpm`.
    ///
    /// In the stall mode, whenever the raw post-update rpm falls under
    /// `MIN_RPM_THRESHOLD` the stored rpm is exactly 0 — a hard reset,
    /// not a clamp toward the threshold; otherwise the raw value is kept
    /// unchanged.
    pub fn update_rpm(&mut self, external_load: i64)
        requires
            old(self)@.wf(),
            0 <= external_load,
        ensures
            final(self)@ == spec_update_rpm(old(self)@, external_load as int),
            final(self)@.wf(),
    {
        let target = IDLE_RPM + self.throttle_position * RPM_PER_THROTTLE_UNIT;
        let inertia = self.current_rpm / 20;
        self.target_rpm = target;
        self.engine_inertia = inertia;

        proof {
            assert(inertia <= self.current_rpm) by {
                vstd::arithmetic::div_mod::lemma_div_is_ordered_by_denominator(
                    self.current_rpm as int, 1, 20);
            }
            assert(inertia >= 0) by {
                vstd::arithmetic::div_mod::lemma_div_pos_is_pos(self.current_rpm as int, 20);
            }
        }

        if target > self.current_rpm {
            proof {
                // below the target the rpm is under 8_800_000, so the
                // inertia stays under 440_000 and the raised rpm under
                // RUNNING_RPM_CAP
                assert(self.current_rpm / 20 <= 8_799_999int / 20) by {
                    vstd::arithmetic::div_mod::lemma_div_is_ordered(
                        self.current_rpm as int, 8_799_999, 20);
                }
            }
            self.current_rpm = self.current_rpm + inertia + self.throttle_position * 10
                - external_load;
        } else if target < self.current_rpm {
            self.current_rpm = self.current_rpm - inertia - external_load;
        }

        if self.stall_enabled {
            if self.current_rpm < MIN_RPM_THRESHOLD {
                self.current_rpm = 0;
            }
        } else {
            if self.current_rpm < 0 {
                self.current_rpm = 0;
            } else if self.current_rpm > self.max_rpm {
                self.current_rpm = self.max_rpm;
            }
        }
    }

    /// Advance the rpm one saturating step through the clutch, for the
    /// simpler model with no transmission: the update of
    /// `spec_update_rpm_with_clutch`. Saturates at 0 instead of
    /// stalling, and at the configured ceiling.
    pub fn update_rpm_with_clutch(
        &mut self,
        clutch: &Clutch,
        throttle: i64,
        brake: i64,
        load: i64,
    )
        requires
            old(self)@.wf(),
            clutch.wf(),
            0 <= throttle <= SCALE,
            0 <= brake <= SCALE,
            0 <= load <= RPM_LIMIT,
        ensures
            final(self)@ == spec_update_rpm_with_clutch(
                old(self)@, clutch@, throttle as int, brake as int, load as int),
            final(self)@.wf(),
    {
        if clutch.engagement > 0 {
            let engagement = clutch.engagement;
            proof {
                let t = throttle as int;
                let b = brake as int;
                let l = load as int;
                let g = engagement as int;
                assert(0 <= t * g <= 1_000_000) by (nonlinear_arith)
                    requires 0 <= t <= 1000 && 0 <= g <= 1000;
                assert(0 <= b * g <= 1_000_000) by (nonlinear_arith)
                    requires 0 <= b <= 1000 && 0 <= g <= 1000;
                assert(0 <= l * g <= 1_000_000_000_000_000) by (nonlinear_arith)
                    requires 0 <= l <= 1_000_000_000_000 && 0 <= g <= 1000;
                vstd::arithmetic::div_mod::lemma_div_pos_is_pos(t * g, 100);
                vstd::arithmetic::div_mod::lemma_div_is_ordered(t * g, 1_000_000, 100);
                vstd::arithmetic::div_mod::lemma_div_pos_is_pos(b * g, 50);
                vstd::arithmetic::div_mod::lemma_div_is_ordered(b * g, 1_000_000, 50);
                vstd::arithmetic::div_mod::lemma_div_pos_is_pos(l * g, SCALE as int);
                vstd::arithmetic::div_mod::lemma_div_is_ordered(
                    l * g, 1_000_000_000_000_000, SCALE as int);
            }
            let throttle_effect = throttle * engagement / 100;
            let brake_effect = brake * engagement / 50;
            let load_effect = load * engagement / SCALE;
            let moved = self.current_rpm + throttle_effect - brake_effect - load_effect;
            self.current_rpm = if moved < 0 {
                0
            } else if moved > self.max_rpm {
                self.max_rpm
            } else {
                moved
            };
        }
    }
}

} // verus!
