use powertrain::clutch::Clutch;
use powertrain::engine::Engine;
use powertrain::sim::{Intent, Simulation, Snapshot};
use powertrain::transmission::Transmission;

fn assert_snapshots_equal(a: &Snapshot, b: &Snapshot) {
    assert_eq!(a.current_rpm, b.current_rpm);
    assert_eq!(a.target_rpm, b.target_rpm);
    assert_eq!(a.throttle_position, b.throttle_position);
    assert_eq!(a.engine_inertia, b.engine_inertia);
    assert_eq!(a.clutch_engagement, b.clutch_engagement);
    assert_eq!(a.brake_engagement, b.brake_engagement);
    assert_eq!(a.gear_label, b.gear_label);
    assert_eq!(a.speed, b.speed);
    assert_eq!(a.external_load, b.external_load);
    assert_eq!(a.stalled, b.stalled);
}

#[test]
fn clutch_engagement_clamps() {
    let mut c = Clutch::new();
    assert_eq!(c.engagement, 1000);
    c.set_engagement(400);
    assert_eq!(c.engagement, 400);
    c.set_engagement(-7);
    assert_eq!(c.engagement, 0);
    c.set_engagement(1001);
    assert_eq!(c.engagement, 1000);
    c.set_engagement(i64::MIN);
    assert_eq!(c.engagement, 0);
    c.set_engagement(i64::MAX);
    assert_eq!(c.engagement, 1000);
}

#[test]
fn throttle_clamps() {
    let mut e = Engine::new();
    e.apply_throttle(650);
    assert_eq!(e.throttle_position, 650);
    e.apply_throttle(-1);
    assert_eq!(e.throttle_position, 0);
    e.apply_throttle(5000);
    assert_eq!(e.throttle_position, 1000);
}

#[test]
fn transmission_clutch_and_brake_clamp() {
    let mut t = Transmission::new();
    t.apply_clutch(320);
    assert_eq!(t.clutch_engagement, 320);
    t.apply_clutch(-40);
    assert_eq!(t.clutch_engagement, 0);
    t.apply_clutch(99_999);
    assert_eq!(t.clutch_engagement, 1000);
    t.apply_brake(580);
    assert_eq!(t.brake_engagement, 580);
    t.apply_brake(-580);
    assert_eq!(t.brake_engagement, 0);
    t.apply_brake(1580);
    assert_eq!(t.brake_engagement, 1000);
}

#[test]
fn gear_stays_in_bounds() {
    let mut t = Transmission::new();
    t.shift_down();
    assert_eq!(t.current_gear, 0);
    for expected in 1..=6usize {
        t.shift_up();
        assert_eq!(t.current_gear, expected);
    }
    for _ in 0..10 {
        t.shift_up();
        assert_eq!(t.current_gear, 6);
    }
    for expected in (0..=5usize).rev() {
        t.shift_down();
        assert_eq!(t.current_gear, expected);
    }
    for _ in 0..10 {
        t.shift_down();
        assert_eq!(t.current_gear, 0);
    }
}

#[test]
fn shift_up_at_top_gear_is_a_no_op() {
    let mut t = Transmission::new();
    for _ in 0..6 {
        t.shift_up();
    }
    assert_eq!(t.current_gear, 6);
    for _ in 0..25 {
        t.shift_up();
        assert_eq!(t.current_gear, 6);
    }
}

#[test]
fn idle_engine_holds_at_idle() {
    let mut e = Engine::new();
    assert_eq!(e.current_rpm, 800_000);
    assert_eq!(e.throttle_position, 0);
    e.update_rpm(0);
    assert_eq!(e.target_rpm, 800_000);
    assert_eq!(e.current_rpm, 800_000);
}

#[test]
fn full_throttle_first_step() {
    let mut e = Engine::new();
    e.apply_throttle(1000);
    e.update_rpm(0);
    assert_eq!(e.target_rpm, 8_800_000);
    assert_eq!(e.engine_inertia, 40_000);
    assert_eq!(e.current_rpm, 850_000);
}

#[test]
fn stall_resets_rpm_to_exactly_zero() {
    let mut e = Engine::new();
    e.current_rpm = 900_000;
    // target 800_000, so the engine decelerates: 900_000 - 45_000 - 600_000
    // = 255_000, under the 300_000 threshold.
    e.update_rpm(600_000);
    assert_eq!(e.current_rpm, 0);
}

#[test]
fn rpm_at_threshold_is_kept_not_reset() {
    let mut e = Engine::new();
    e.current_rpm = 900_000;
    // 900_000 - 45_000 - 550_000 = 305_000, above the threshold: kept.
    e.update_rpm(550_000);
    assert_eq!(e.current_rpm, 305_000);
}

#[test]
fn increase_and_decrease_rpm_saturate() {
    let mut e = Engine::with_max_rpm(7_000_000);
    assert_eq!(e.current_rpm, 0);
    e.increase_rpm(500_000);
    assert_eq!(e.current_rpm, 500_000);
    e.increase_rpm(8_000_000);
    assert_eq!(e.current_rpm, 7_000_000);
    e.decrease_rpm(1_000_000);
    assert_eq!(e.current_rpm, 6_000_000);
    e.decrease_rpm(9_000_000);
    assert_eq!(e.current_rpm, 0);
}

#[test]
fn clutch_update_is_a_no_op_when_disengaged() {
    let mut e = Engine::with_max_rpm(7_000_000);
    e.increase_rpm(2_000_000);
    let mut c = Clutch::new();
    c.set_engagement(0);
    e.update_rpm_with_clutch(&c, 1000, 0, 0);
    assert_eq!(e.current_rpm, 2_000_000);
}

#[test]
fn clutch_update_applies_scaled_effects() {
    let mut e = Engine::with_max_rpm(7_000_000);
    let c = Clutch::new();
    // throttle effect: 1000 * 1000 / 100 = 10_000 (10 rpm per step).
    e.update_rpm_with_clutch(&c, 1000, 0, 0);
    assert_eq!(e.current_rpm, 10_000);
    // half engagement halves the effect.
    let mut half = Clutch::new();
    half.set_engagement(500);
    e.update_rpm_with_clutch(&half, 1000, 0, 0);
    assert_eq!(e.current_rpm, 15_000);
    // brake effect: 1000 * 1000 / 50 = 20_000, saturating at 0.
    e.update_rpm_with_clutch(&c, 0, 1000, 0);
    assert_eq!(e.current_rpm, 0);
}

#[test]
fn clutch_update_saturates_at_the_ceiling() {
    let mut e = Engine::with_max_rpm(5_000);
    let c = Clutch::new();
    e.update_rpm_with_clutch(&c, 1000, 0, 0);
    assert_eq!(e.current_rpm, 5_000);
}

#[test]
fn neutral_torque_is_zero() {
    let mut t = Transmission::new();
    assert_eq!(t.calculate_torque(5_000_000), 0);
    assert_eq!(t.calculate_torque(0), 0);
    let load = t.calculate_load(5_000_000);
    assert_eq!(load, 0);
}

#[test]
fn neutral_load_is_floored_at_zero() {
    let mut t = Transmission::new();
    t.speed = 400;
    // torque 0, speed decays to 400 - 100 = 300; 0 - 3000 floors at 0.
    let load = t.calculate_load(2_000_000);
    assert_eq!(load, 0);
    assert_eq!(t.speed, 300);
}

#[test]
fn gear_one_torque_and_speed_steps() {
    let mut t = Transmission::new();
    t.shift_up();
    assert_eq!(t.current_gear, 1);
    // 1000 rpm * ratio 3.0 * clutch 1.0 * (1 - 0.0) = 3000.
    assert_eq!(t.calculate_torque(1_000_000), 3_000_000);
    // speed climbs toward 300.0 in steps of 0.1.
    t.update_speed(1_000_000);
    assert_eq!(t.speed, 100);
    t.update_speed(1_000_000);
    assert_eq!(t.speed, 200);
    t.update_speed(1_000_000);
    assert_eq!(t.speed, 300);
}

#[test]
fn brake_cuts_torque_and_steepens_decay() {
    let mut t = Transmission::new();
    t.shift_up();
    t.apply_brake(1000);
    // a fully applied brake cuts the torque to 0.
    assert_eq!(t.calculate_torque(1_000_000), 0);
    // and the speed decays by 0.1 + 1.0 per step, floored at 0.
    t.speed = 2_500;
    t.update_speed(1_000_000);
    assert_eq!(t.speed, 1_400);
    t.update_speed(1_000_000);
    assert_eq!(t.speed, 300);
    t.update_speed(1_000_000);
    assert_eq!(t.speed, 0);
}

#[test]
fn load_feeds_back_torque_minus_speed() {
    let mut t = Transmission::new();
    t.shift_up();
    // torque 3_000_000; speed steps to 100; load = 3_000_000 - 1_000.
    let load = t.calculate_load(1_000_000);
    assert_eq!(load, 2_999_000);
    assert_eq!(t.speed, 100);
}

#[test]
fn gear_labels() {
    let mut t = Transmission::new();
    assert_eq!(t.get_current_gear(), "N");
    let labels = ["1", "2", "3", "4", "5", "6"];
    for label in labels.iter() {
        t.shift_up();
        assert_eq!(t.get_current_gear(), *label);
    }
}

#[test]
fn clutch_intent_is_inverted_and_mirrored() {
    let mut s = Simulation::new();
    s.apply_intent(Intent::Clutch(250));
    assert_eq!(s.clutch.engagement, 750);
    assert_eq!(s.transmission.clutch_engagement, 750);
    s.apply_intent(Intent::Clutch(-50));
    assert_eq!(s.clutch.engagement, 1000);
    s.apply_intent(Intent::Clutch(2000));
    assert_eq!(s.clutch.engagement, 0);
}

#[test]
fn restart_intent_puts_rpm_above_threshold() {
    let mut s = Simulation::new();
    s.engine.current_rpm = 0;
    s.apply_intent(Intent::Restart);
    assert_eq!(s.engine.current_rpm, 300_100);
}

#[test]
fn first_tick_at_full_throttle() {
    let mut s = Simulation::new();
    let intents = vec![Intent::Throttle(1000)];
    let snapshot = s.tick(&intents);
    assert_eq!(snapshot.current_rpm, 850_000);
    assert_eq!(snapshot.target_rpm, 8_800_000);
    assert_eq!(snapshot.throttle_position, 1000);
    assert_eq!(snapshot.engine_inertia, 40_000);
    assert_eq!(snapshot.clutch_engagement, 1000);
    assert_eq!(snapshot.brake_engagement, 0);
    assert_eq!(snapshot.gear_label, "N");
    assert_eq!(snapshot.speed, 0);
    assert_eq!(snapshot.external_load, 0);
    assert!(!snapshot.stalled);
}

#[test]
fn tick_under_gear_load_stalls_the_engine() {
    let mut s = Simulation::new();
    let intents = vec![Intent::Throttle(1000), Intent::ShiftUp];
    // pre-update rpm 800_000 in gear 1: torque 2_400_000, speed steps to
    // 100, load 2_399_000; the engine moves to 800_000 + 40_000 + 10_000
    // - 2_399_000 < 300_000 and stalls.
    let snapshot = s.tick(&intents);
    assert_eq!(snapshot.external_load, 2_399_000);
    assert_eq!(snapshot.speed, 100);
    assert_eq!(snapshot.gear_label, "1");
    assert_eq!(snapshot.current_rpm, 0);
    assert!(snapshot.stalled);
}

#[test]
fn tick_with_no_intents_keeps_the_idle_state() {
    let mut s = Simulation::new();
    let intents: Vec<Intent> = vec![];
    let snapshot = s.tick(&intents);
    assert_eq!(snapshot.current_rpm, 800_000);
    assert_eq!(snapshot.target_rpm, 800_000);
    assert_eq!(snapshot.external_load, 0);
    assert_eq!(snapshot.speed, 0);
    assert_eq!(snapshot.gear_label, "N");
    assert!(!snapshot.stalled);
}

#[test]
fn identical_runs_publish_identical_snapshots() {
    let script: Vec<Vec<Intent>> = vec![
        vec![Intent::Throttle(700), Intent::ShiftUp],
        vec![Intent::Clutch(300), Intent::Brake(200)],
        vec![Intent::ShiftUp],
        vec![],
        vec![Intent::Brake(900), Intent::Throttle(0)],
        vec![Intent::Restart],
        vec![],
        vec![Intent::ShiftDown, Intent::Clutch(0), Intent::Throttle(450)],
        vec![],
        vec![],
    ];
    let mut first = Simulation::new();
    let mut second = Simulation::new();
    for intents in script.iter() {
        let a = first.tick(intents);
        let b = second.tick(intents);
        assert_snapshots_equal(&a, &b);
    }
}

#[test]
fn replaying_the_same_script_reproduces_the_run() {
    let script: Vec<Vec<Intent>> = vec![
        vec![Intent::Throttle(1000)],
        vec![Intent::ShiftUp],
        vec![],
        vec![Intent::Restart, Intent::Clutch(1000)],
        vec![],
    ];
    let mut recorded: Vec<Snapshot> = Vec::new();
    let mut s = Simulation::new();
    for intents in script.iter() {
        recorded.push(s.tick(intents));
    }
    let mut replay = Simulation::new();
    for (intents, earlier) in script.iter().zip(recorded.iter()) {
        let again = replay.tick(intents);
        assert_snapshots_equal(&again, earlier);
    }
}
