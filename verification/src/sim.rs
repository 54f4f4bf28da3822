//! The simulation tick: the single owner of clutch, engine and
//! transmission. One tick applies the pending operator intents in order,
//! computes the drivetrain load from the engine's pre-update rpm, then
//! advances the engine against that load and publishes a snapshot.
//!
//! All cross-component coupling passes by value through this module: no
//! component holds a reference to another, so the update order is the
//! explicit one below and the whole trajectory is a function of the
//! initial state and the ordered intent sequence alone.

use vstd::prelude::*;
use crate::clutch::Clutch;
use crate::engine::{Engine, EngineModel, spec_update_rpm};
use crate::transmission::{
    Transmission, TransmissionModel, spec_default_ratios, spec_shift_gear, spec_update_speed,
    spec_load, spec_gear_label,
};
use crate::units::{SCALE, IDLE_RPM, DEFAULT_MAX_RPM, RESTART_RPM, clamp_unit, clamp_unit_spec};

verus! {

/// One decoded operator input. Axis values are raw and clamped at the
/// point of entry; the clutch axis is inverted (a fully pressed pedal
/// disengages the clutch).
#[derive(Clone, Copy)]
pub enum Intent {
    /// Throttle axis value.
    Throttle(i64),
    /// Clutch pedal axis value; engagement becomes `SCALE` minus it.
    Clutch(i64),
    /// Brake axis value.
    Brake(i64),
    /// Discrete shift-up event.
    ShiftUp,
    /// Discrete shift-down event.
    ShiftDown,
    /// Discrete restart event: puts a stalled engine just above the
    /// stall threshold.
    Restart,
}

/// Read-only state published to a display sink once per tick.
pub struct Snapshot {
    pub current_rpm: i64,
    pub target_rpm: i64,
    pub throttle_position: i64,
    pub engine_inertia: i64,
    pub clutch_engagement: i64,
    pub brake_engagement: i64,
    pub gear_label: String,
    pub speed: i64,
    pub external_load: i64,
    pub stalled: bool,
}

/// Mathematical model of a snapshot.
#[verifier::ext_equal]
pub struct SnapshotModel {
    pub current_rpm: int,
    pub target_rpm: int,
    pub throttle_position: int,
    pub engine_inertia: int,
    pub clutch_engagement: int,
    pub brake_engagement: int,
    pub gear_label: Seq<char>,
    pub speed: int,
    pub external_load: int,
    pub stalled: bool,
}

impl View for Snapshot {
    type V = SnapshotModel;

    open spec fn view(&self) -> SnapshotModel {
        SnapshotModel {
            current_rpm: self.current_rpm as int,
            target_rpm: self.target_rpm as int,
            throttle_position: self.throttle_position as int,
            engine_inertia: self.engine_inertia as int,
            clutch_engagement: self.clutch_engagement as int,
            brake_engagement: self.brake_engagement as int,
            gear_label: self.gear_label@,
            speed: self.speed as int,
            external_load: self.external_load as int,
            stalled: self.stalled,
        }
    }
}

/// The whole simulation state, owner of the three components.
pub struct Simulation {
    pub clutch: Clutch,
    pub engine: Engine,
    pub transmission: Transmission,
}

/// Mathematical model of the simulation state.
#[verifier::ext_equal]
pub struct SimModel {
    pub clutch: int,
    pub engine: EngineModel,
    pub transmission: TransmissionModel,
}

impl View for Simulation {
    type V = SimModel;

    open spec fn view(&self) -> SimModel {
        SimModel {
            clutch: self.clutch@,
            engine: self.engine@,
            transmission: self.transmission@,
        }
    }
}

impl SimModel {
    /// The canonical simulation runs the full stall-enabled engine
    /// model; the components themselves are well formed.
    pub open spec fn wf(self) -> bool {
        &&& 0 <= self.clutch <= SCALE
        &&& self.engine.wf()
        &&& self.engine.stall_enabled
        &&& self.transmission.wf()
    }
}

/// The state a fresh simulation starts from: engine idling at 800 rpm,
/// clutch fully engaged, transmission in neutral, at rest.
pub open spec fn initial_model() -> SimModel {
    SimModel {
        clutch: SCALE as int,
        engine: EngineModel {
            current_rpm: IDLE_RPM as int,
            target_rpm: IDLE_RPM as int,
            throttle_position: 0,
            engine_inertia: 0,
            stall_enabled: true,
            max_rpm: DEFAULT_MAX_RPM as int,
        },
        transmission: TransmissionModel {
            ratios: spec_default_ratios(),
            gear: 0,
            clutch: SCALE as int,
            brake: 0,
            speed: 0,
        },
    }
}

/// Effect of one intent on the state: axis values are clamped and
/// stored (the clutch axis inverted, mirrored into both the clutch and
/// the transmission), shifts step the gear, and a restart forces the
/// engine rpm just above the stall threshold.
pub open spec fn spec_apply_intent(m: SimModel, intent: Intent) -> SimModel {
    match intent {
        Intent::Throttle(v) => SimModel {
            engine: EngineModel { throttle_position: clamp_unit_spec(v as int), ..m.engine },
            ..m
        },
        Intent::Clutch(v) => SimModel {
            clutch: SCALE - clamp_unit_spec(v as int),
            transmission: TransmissionModel {
                clutch: SCALE - clamp_unit_spec(v as int),
                ..m.transmission
            },
            ..m
        },
        Intent::Brake(v) => SimModel {
            transmission: TransmissionModel {
                brake: clamp_unit_spec(v as int),
                ..m.transmission
            },
            ..m
        },
        Intent::ShiftUp => SimModel {
            transmission: TransmissionModel {
                gear: spec_shift_gear(m.transmission.gear, m.transmission.ratios.len() as int, true),
                ..m.transmission
            },
            ..m
        },
        Intent::ShiftDown => SimModel {
            transmission: TransmissionModel {
                gear: spec_shift_gear(
                    m.transmission.gear, m.transmission.ratios.len() as int, false),
                ..m.transmission
            },
            ..m
        },
        Intent::Restart => SimModel {
            engine: EngineModel { current_rpm: RESTART_RPM as int, ..m.engine },
            ..m
        },
    }
}

/// A whole intent sequence, applied in order.
pub open spec fn spec_apply_intents(m: SimModel, intents: Seq<Intent>) -> SimModel
    decreases intents.len(),
{
    if intents.len() == 0 {
        m
    } else {
        spec_apply_intent(spec_apply_intents(m, intents.drop_last()), intents.last())
    }
}

/// The state after one tick: apply the intents, compute the load from
/// the engine's pre-update rpm (advancing the speed as a side effect),
/// then advance the engine against that load.
pub open spec fn spec_tick(m: SimModel, intents: Seq<Intent>) -> SimModel {
    let applied = spec_apply_intents(m, intents);
    let load = spec_load(applied.transmission, applied.engine.current_rpm);
    SimModel {
        clutch: applied.clutch,
        engine: spec_update_rpm(applied.engine, load),
        transmission: spec_update_speed(applied.transmission, applied.engine.current_rpm),
    }
}

/// The snapshot published after one tick: the post-tick state, the load
/// that was fed to the engine, and the stall flag (an rpm of exactly 0).
pub open spec fn spec_tick_snapshot(m: SimModel, intents: Seq<Intent>) -> SnapshotModel {
    let applied = spec_apply_intents(m, intents);
    let load = spec_load(applied.transmission, applied.engine.current_rpm);
    let after = spec_tick(m, intents);
    SnapshotModel {
        current_rpm: after.engine.current_rpm,
        target_rpm: after.engine.target_rpm,
        throttle_position: after.engine.throttle_position,
        engine_inertia: after.engine.engine_inertia,
        clutch_engagement: after.transmission.clutch,
        brake_engagement: after.transmission.brake,
        gear_label: spec_gear_label(after.transmission.gear),
        speed: after.transmission.speed,
        external_load: load,
        stalled: after.engine.current_rpm == 0,
    }
}

/// The snapshot trajectory of a whole run: one snapshot per tick, each
/// tick fed its own intent batch.
pub open spec fn spec_run(m: SimModel, ticks: Seq<Seq<Intent>>) -> Seq<SnapshotModel>
    decreases ticks.len(),
{
    if ticks.len() == 0 {
        Seq::empty()
    } else {
        seq![spec_tick_snapshot(m, ticks[0])] + spec_run(spec_tick(m, ticks[0]), ticks.skip(1))
    }
}

/// Determinism law: the snapshot trajectory is a function of the initial
/// state and the ordered intent batches alone, so two runs from equal
/// states fed identical intent sequences publish identical snapshots at
/// every tick. `Simulation::tick` ensures its results equal `spec_tick`
/// and `spec_tick_snapshot`, which ties every execution to this
/// trajectory.
pub proof fn lemma_determinism(first: SimModel, second: SimModel, ticks: Seq<Seq<Intent>>)
    requires
        first == second,
    ensures
        spec_run(first, ticks) == spec_run(second, ticks),
{
}

impl Simulation {
    /// A fresh simulation in the initial state.
    pub fn new() -> (s: Simulation)
        ensures
            s@ =~= initial_model(),
            s@.wf(),
    {
        Simulation {
            clutch: Clutch::new(),
            engine: Engine::new(),
            transmission: Transmission::new(),
        }
    }

    /// Apply one intent to the owning component: exactly
    /// `spec_apply_intent`.
    pub fn apply_intent(&mut self, intent: Intent)
        requires
            old(self)@.wf(),
        ensures
            final(self)@ == spec_apply_intent(old(self)@, intent),
            final(self)@.wf(),
    {
        match intent {
            Intent::Throttle(v) => {
                self.engine.apply_throttle(v);
            },
            Intent::Clutch(v) => {
                let engagement = SCALE - clamp_unit(v);
                self.clutch.set_engagement(engagement);
                self.transmission.apply_clutch(engagement);
            },
            Intent::Brake(v) => {
                self.transmission.apply_brake(v);
            },
            Intent::ShiftUp => {
                self.transmission.shift_up();
            },
            Intent::ShiftDown => {
                self.transmission.shift_down();
            },
            Intent::Restart => {
                self.engine.current_rpm = RESTART_RPM;
            },
        }
    }

    /// One simulation tick: drain the pending intents in order, compute
    /// the drivetrain load from the engine's pre-update rpm, advance the
    /// engine against it, and publish the snapshot — exactly `spec_tick`
    /// and `spec_tick_snapshot`.
    pub fn tick(&mut self, intents: &Vec<Intent>) -> (snapshot: Snapshot)
        requires
            old(self)@.wf(),
        ensures
            final(self)@ == spec_tick(old(self)@, intents@),
            snapshot@ =~= spec_tick_snapshot(old(self)@, intents@),
            final(self)@.wf(),
    {
        let mut i: usize = 0;
        while i < intents.len()
            invariant
                0 <= i <= intents.len(),
                self@.wf(),
                self@ == spec_apply_intents(old(self)@, intents@.take(i as int)),
            decreases intents.len() - i,
        {
            self.apply_intent(intents[i]);
            proof {
                assert(intents@.take(i + 1).drop_last() =~= intents@.take(i as int));
            }
            i = i + 1;
        }
        proof {
            assert(intents@.take(intents@.len() as int) =~= intents@);
        }
        let load = self.transmission.calculate_load(self.engine.current_rpm);
        self.engine.update_rpm(load);
        Snapshot {
            current_rpm: self.engine.current_rpm,
            target_rpm: self.engine.target_rpm,
            throttle_position: self.engine.throttle_position,
            engine_inertia: self.engine.engine_inertia,
            clutch_engagement: self.transmission.clutch_engagement,
            brake_engagement: self.transmission.brake_engagement,
            gear_label: self.transmission.get_current_gear(),
            speed: self.transmission.speed,
            external_load: load,
            stalled: self.engine.current_rpm == 0,
        }
    }
}

} // verus!
