//! The transmission: gear state, clutch and brake engagement, and the
//! simulated vehicle speed. It converts engine rpm into drivetrain
//! torque, smooths the speed toward a torque-derived target, and feeds a
//! non-negative load back to the engine.

use vstd::prelude::*;
use vstd::string::StringExecFns;
use crate::units::{
    SCALE, RPM_LIMIT, RATIO_LIMIT, TORQUE_LIMIT, SPEED_LIMIT, clamp_unit, clamp_unit_spec,
};

verus! {

/// Gear train and drivetrain state. Index 0 of `gear_ratios` is neutral
/// (ratio 0); higher indices are forward gears.
pub struct Transmission {
    pub gear_ratios: Vec<i64>,
    pub current_gear: usize,
    pub clutch_engagement: i64,
    pub brake_engagement: i64,
    pub speed: i64,
}

/// Mathematical model of a transmission: the same fields over `int`.
#[verifier::ext_equal]
pub struct TransmissionModel {
    pub ratios: Seq<int>,
    pub gear: int,
    pub clutch: int,
    pub brake: int,
    pub speed: int,
}

impl View for Transmission {
    type V = TransmissionModel;

    open spec fn view(&self) -> TransmissionModel {
        TransmissionModel {
            ratios: self.gear_ratios@.map_values(|r: i64| r as int),
            gear: self.current_gear as int,
            clutch: self.clutch_engagement as int,
            brake: self.brake_engagement as int,
            speed: self.speed as int,
        }
    }
}

/// The fixed gear table: neutral, then forward ratios 3.0, 2.0, 1.5,
/// 1.0, 0.8, 0.6 in stored thousandths.
pub open spec fn spec_default_ratios() -> Seq<int> {
    seq![0, 3000, 2000, 1500, 1000, 800, 600]
}

impl TransmissionModel {
    pub open spec fn wf(self) -> bool {
        &&& 1 <= self.ratios.len() <= 10
        &&& self.ratios[0] == 0
        &&& (forall|i: int| 0 <= i < self.ratios.len()
                ==> 0 <= #[trigger] self.ratios[i] <= RATIO_LIMIT)
        &&& 0 <= self.gear < self.ratios.len()
        &&& 0 <= self.clutch <= SCALE
        &&& 0 <= self.brake <= SCALE
        &&& 0 <= self.speed <= SPEED_LIMIT
    }
}

/// One gear step: up toward the top gear or down toward neutral, a no-op
/// at the respective end.
pub open spec fn spec_shift_gear(gear: int, count: int, up: bool) -> int {
    if up {
        if gear < count - 1 {
            gear + 1
        } else {
            gear
        }
    } else {
        if gear > 0 {
            gear - 1
        } else {
            gear
        }
    }
}

/// A whole sequence of gear steps (`true` is a shift up), applied in
/// order.
pub open spec fn spec_shift_many(gear: int, count: int, shifts: Seq<bool>) -> int
    decreases shifts.len(),
{
    if shifts.len() == 0 {
        gear
    } else {
        spec_shift_gear(spec_shift_many(gear, count, shifts.drop_last()), count, shifts.last())
    }
}

/// Gear-bounds law: from any in-range starting gear, no sequence of
/// shift-up and shift-down steps ever leaves `[0, count - 1]`.
pub proof fn lemma_gear_bounds(gear: int, count: int, shifts: Seq<bool>)
    requires
        0 <= gear < count,
    ensures
        0 <= spec_shift_many(gear, count, shifts) < count,
    decreases shifts.len(),
{
    if shifts.len() > 0 {
        lemma_gear_bounds(gear, count, shifts.drop_last());
    }
}

/// Drivetrain torque: engine rpm times the selected gear ratio, scaled
/// by the clutch engagement and cut by the brake, all in stored
/// thousandths with the scale divided back out after each product.
pub open spec fn spec_torque(t: TransmissionModel, engine_rpm: int) -> int {
    engine_rpm * t.ratios[t.gear] / (SCALE as int) * t.clutch / (SCALE as int)
        * ((SCALE as int) - t.brake) / (SCALE as int)
}

/// One speed step: the speed moves toward one tenth of the torque, up by
/// 0.1 or down by 0.1 plus the brake engagement, never below 0.
pub open spec fn spec_update_speed(t: TransmissionModel, engine_rpm: int) -> TransmissionModel {
    let target_speed = spec_torque(t, engine_rpm) / 10;
    let difference = target_speed - t.speed;
    let speed = if difference > 0 {
        t.speed + 100
    } else if difference < 0 {
        let lowered = t.speed - (100 + t.brake);
        if lowered < 0 {
            0
        } else {
            lowered
        }
    } else {
        t.speed
    };
    TransmissionModel { speed: speed, ..t }
}

/// The load fed back to the engine after a speed step: the torque less
/// ten times the updated speed, floored at 0.
pub open spec fn spec_load(t: TransmissionModel, engine_rpm: int) -> int {
    let updated = spec_update_speed(t, engine_rpm);
    let raw = spec_torque(updated, engine_rpm) - updated.speed * 10;
    if raw < 0 {
        0
    } else {
        raw
    }
}

/// Display label of a gear index: `"N"` for neutral, else its decimal
/// digit (the table never holds more than ten gears).
pub open spec fn spec_gear_label(gear: int) -> Seq<char> {
    if gear == 0 {
        "N"@
    } else if gear == 1 {
        "1"@
    } else if gear == 2 {
        "2"@
    } else if gear == 3 {
        "3"@
    } else if gear == 4 {
        "4"@
    } else if gear == 5 {
        "5"@
    } else if gear == 6 {
        "6"@
    } else if gear == 7 {
        "7"@
    } else if gear == 8 {
        "8"@
    } else {
        "9"@
    }
}

impl Transmission {
    /// A fresh transmission: the fixed gear table, neutral selected,
    /// clutch fully engaged, brake released, at rest.
    pub fn new() -> (t: Transmission)
        ensures
            t@.ratios =~= spec_default_ratios(),
            t@.gear == 0,
            t@.clutch == SCALE,
            t@.brake == 0,
            t@.speed == 0,
            t@.wf(),
    {
        let gear_ratios: Vec<i64> = vec![0, 3000, 2000, 1500, 1000, 800, 600];
        let t = Transmission {
            gear_ratios,
            current_gear: 0,
            clutch_engagement: SCALE,
            brake_engagement: 0,
            speed: 0,
        };
        proof {
            assert(t@.ratios =~= spec_default_ratios());
        }
        t
    }

    /// Select the next higher gear; a no-op at the top gear.
    pub fn shift_up(&mut self)
        requires
            old(self)@.wf(),
        ensures
            final(self)@ == (TransmissionModel {
                gear: spec_shift_gear(old(self)@.gear, old(self)@.ratios.len() as int, true),
                ..old(self)@
            }),
            final(self)@.wf(),
    {
        if self.current_gear < self.gear_ratios.len() - 1 {
            self.current_gear = self.current_gear + 1;
        }
    }

    /// Select the next lower gear; a no-op at neutral.
    pub fn shift_down(&mut self)
        requires
            old(self)@.wf(),
        ensures
            final(self)@ == (TransmissionModel {
                gear: spec_shift_gear(old(self)@.gear, old(self)@.ratios.len() as int, false),
                ..old(self)@
            }),
            final(self)@.wf(),
    {
        if self.current_gear > 0 {
            self.current_gear = self.current_gear - 1;
        }
    }

    /// Store the clutch engagement, clamped to `[0, SCALE]`. Succeeds on
    /// every input.
    pub fn apply_clutch(&mut self, engagement: i64)
        ensures
            final(self)@ == (TransmissionModel {
                clutch: clamp_unit_spec(engagement as int),
                ..old(self)@
            }),
            old(self)@.wf() ==> final(self)@.wf(),
    {
        self.clutch_engagement = clamp_unit(engagement);
    }

    /// Store the brake engagement, clamped to `[0, SCALE]`. Succeeds on
    /// every input.
    pub fn apply_brake(&mut self, engagement: i64)
        ensures
            final(self)@ == (TransmissionModel {
                brake: clamp_unit_spec(engagement as int),
                ..old(self)@
            }),
            old(self)@.wf() ==> final(self)@.wf(),
    {
        self.brake_engagement = clamp_unit(engagement);
    }

    /// Drivetrain torque for the given engine rpm: exactly
    /// `spec_torque`, zero in neutral, with the clutch disengaged, or
    /// with the brake fully applied.
    pub fn calculate_torque(&self, engine_rpm: i64) -> (torque: i64)
        requires
            self@.wf(),
            0 <= engine_rpm <= RPM_LIMIT,
        ensures
            torque == spec_torque(self@, engine_rpm as int),
            0 <= torque <= TORQUE_LIMIT,
    {
        let ratio = self.gear_ratios[self.current_gear];
        proof {
            assert(ratio == self@.ratios[self@.gear]);
            let r = engine_rpm as int;
            let ra = ratio as int;
            let c = self.clutch_engagement as int;
            let b = self.brake_engagement as int;
            let s = SCALE as int;
            assert(0 <= r * ra <= 100_000_000_000_000_000) by (nonlinear_arith)
                requires 0 <= r <= 1_000_000_000_000 && 0 <= ra <= 100_000;
            vstd::arithmetic::div_mod::lemma_div_pos_is_pos(r * ra, s);
            vstd::arithmetic::div_mod::lemma_div_is_ordered(r * ra, 100_000_000_000_000_000, s);
            let p1 = r * ra / s;
            assert(0 <= p1 * c <= 100_000_000_000_000_000) by (nonlinear_arith)
                requires 0 <= p1 <= 100_000_000_000_000 && 0 <= c <= 1000;
            vstd::arithmetic::div_mod::lemma_div_pos_is_pos(p1 * c, s);
            vstd::arithmetic::div_mod::lemma_div_is_ordered(p1 * c, 100_000_000_000_000_000, s);
            let p2 = p1 * c / s;
            assert(0 <= p2 * (s - b) <= 100_000_000_000_000_000) by (nonlinear_arith)
                requires 0 <= p2 <= 100_000_000_000_000 && 0 <= s - b <= 1000;
            vstd::arithmetic::div_mod::lemma_div_pos_is_pos(p2 * (s - b), s);
            vstd::arithmetic::div_mod::lemma_div_is_ordered(
                p2 * (s - b), 100_000_000_000_000_000, s);
        }
        engine_rpm * ratio / SCALE * self.clutch_engagement / SCALE
            * (SCALE - self.brake_engagement) / SCALE
    }

    /// One speed step toward the torque-derived target: exactly
    /// `spec_update_speed`. Braking steepens the decay, and the speed
    /// never drops below 0.
    pub fn update_speed(&mut self, engine_rpm: i64)
        requires
            old(self)@.wf(),
            0 <= engine_rpm <= RPM_LIMIT,
        ensures
            final(self)@ == spec_update_speed(old(self)@, engine_rpm as int),
            final(self)@.wf(),
    {
        let torque = self.calculate_torque(engine_rpm);
        let target_speed = torque / 10;
        proof {
            vstd::arithmetic::div_mod::lemma_div_pos_is_pos(torque as int, 10);
            vstd::arithmetic::div_mod::lemma_div_is_ordered(torque as int, TORQUE_LIMIT as int, 10);
        }
        let difference = target_speed - self.speed;
        if difference > 0 {
            self.speed = self.speed + 100;
        } else if difference < 0 {
            let lowered = self.speed - (100 + self.brake_engagement);
            self.speed = if lowered < 0 { 0 } else { lowered };
        }
    }

    /// Advance the speed one step, then hand the engine its load: the
    /// torque less ten times the updated speed, floored at 0 — exactly
    /// `spec_load`, and never negative.
    pub fn calculate_load(&mut self, engine_rpm: i64) -> (load: i64)
        requires
            old(self)@.wf(),
            0 <= engine_rpm <= RPM_LIMIT,
        ensures
            final(self)@ == spec_update_speed(old(self)@, engine_rpm as int),
            final(self)@.wf(),
            load == spec_load(old(self)@, engine_rpm as int),
            0 <= load <= TORQUE_LIMIT,
    {
        self.update_speed(engine_rpm);
        let torque = self.calculate_torque(engine_rpm);
        let raw = torque - self.speed * 10;
        if raw < 0 {
            0
        } else {
            raw
        }
    }

    /// Display label of the selected gear: `"N"` in neutral, else the
    /// decimal digit of the gear index.
    pub fn get_current_gear(&self) -> (label: String)
        requires
            self@.wf(),
        ensures
            label@ == spec_gear_label(self@.gear),
    {
        match self.current_gear {
            0 => String::from_str("N"),
            1 => String::from_str("1"),
            2 => String::from_str("2"),
            3 => String::from_str("3"),
            4 => String::from_str("4"),
            5 => String::from_str("5"),
            6 => String::from_str("6"),
            7 => String::from_str("7"),
            8 => String::from_str("8"),
            _ => String::from_str("9"),
        }
    }
}

} // verus!
