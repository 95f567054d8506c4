use tick_calendar::ratio::Ratio;
use tick_calendar::tick_engine::{
    InvalidRateError, TickEnginePlugin, TickHistory, DEFAULT_TARGET_TPS, MAX_TARGET_TPS,
    MIN_TARGET_TPS,
};

fn ratio(numerator: u64, denominator: u64) -> Ratio {
    Ratio { numerator, denominator }
}

fn as_f64(r: Ratio) -> f64 {
    r.numerator as f64 / r.denominator as f64
}

#[test]
fn bounds_are_the_documented_ones() {
    assert_eq!(MIN_TARGET_TPS, 1);
    assert_eq!(MAX_TARGET_TPS, 1_000_000);
    assert_eq!(DEFAULT_TARGET_TPS, 100);
}

#[test]
fn default_engine_runs_at_100_ticks_per_second() {
    let engine = TickEnginePlugin::default();
    assert_eq!(engine.target_ticks_per_second(), 100);
    assert_eq!(engine.get_time_delta(), ratio(1, 100));
    assert_eq!(as_f64(engine.get_time_delta()), 0.01);
    assert_eq!(engine.measured_ticks_per_second(), ratio(0, 1));
    assert_eq!(as_f64(engine.measured_ticks_per_second()), 0.0);
}

#[test]
fn set_target_rate_makes_the_timestep_the_reciprocal() {
    let mut engine = TickEnginePlugin::default();
    for n in [1, 2, 3, 7, 30, 60, 100, 144, 999, 65_536, 999_999, 1_000_000] {
        assert_eq!(engine.set_target_rate(n), Ok(()));
        assert_eq!(engine.target_ticks_per_second(), n);
        let timestep = engine.get_time_delta();
        assert_eq!(timestep, ratio(1, n as u64));
        assert!((as_f64(timestep) - 1.0 / n as f64).abs() < 1e-15);
        assert!((as_f64(timestep) * n as f64 - 1.0).abs() < 1e-12);
    }
}

#[test]
fn set_target_rate_accepts_both_bounds() {
    let mut engine = TickEnginePlugin::default();
    assert_eq!(engine.set_target_rate(MIN_TARGET_TPS), Ok(()));
    assert_eq!(engine.get_time_delta(), ratio(1, 1));
    assert_eq!(engine.set_target_rate(MAX_TARGET_TPS), Ok(()));
    assert_eq!(engine.get_time_delta(), ratio(1, 1_000_000));
}

#[test]
fn set_target_rate_refuses_zero_and_negative_rates() {
    let mut engine = TickEnginePlugin::default();
    assert_eq!(engine.set_target_rate(40), Ok(()));
    let before = engine.get_time_delta();

    assert_eq!(engine.set_target_rate(0), Err(InvalidRateError { requested: 0 }));
    assert_eq!(engine.get_time_delta(), before);
    assert_eq!(engine.target_ticks_per_second(), 40);

    assert_eq!(engine.set_target_rate(-5), Err(InvalidRateError { requested: -5 }));
    assert_eq!(engine.get_time_delta(), before);
    assert_eq!(engine.target_ticks_per_second(), 40);

    assert_eq!(engine.set_target_rate(i32::MIN), Err(InvalidRateError { requested: i32::MIN }));
    assert_eq!(engine.get_time_delta(), ratio(1, 40));
}

#[test]
fn set_target_rate_refuses_rates_above_the_ceiling() {
    let mut engine = TickEnginePlugin::default();
    assert_eq!(engine.set_target_rate(1_000_001), Err(InvalidRateError { requested: 1_000_001 }));
    assert_eq!(engine.set_target_rate(i32::MAX), Err(InvalidRateError { requested: i32::MAX }));
    assert_eq!(engine.target_ticks_per_second(), 100);
    assert_eq!(engine.get_time_delta(), ratio(1, 100));
}

#[test]
fn a_refused_rate_leaves_measurement_and_pending_change_alone() {
    let mut engine = TickEnginePlugin::default();
    let mut history = TickHistory::default();
    engine.on_tick_completed(ratio(1, 50), &mut history);
    assert_eq!(engine.set_target_rate(0), Err(InvalidRateError { requested: 0 }));
    assert_eq!(engine.measured_ticks_per_second(), ratio(50, 1));
    assert_eq!(engine.check_target_tps_changed(), None);
}

#[test]
fn on_tick_completed_measures_the_reciprocal_of_the_elapsed_time() {
    let mut engine = TickEnginePlugin::default();
    let mut history = TickHistory::default();

    engine.on_tick_completed(ratio(1, 100), &mut history);
    assert_eq!(engine.measured_ticks_per_second(), ratio(100, 1));
    assert_eq!(as_f64(engine.measured_ticks_per_second()), 100.0);

    engine.on_tick_completed(ratio(10_000_000, 1_000_000_000), &mut history);
    assert_eq!(engine.measured_ticks_per_second(), ratio(1_000_000_000, 10_000_000));
    assert_eq!(as_f64(engine.measured_ticks_per_second()), 100.0);

    engine.on_tick_completed(ratio(3, 2), &mut history);
    assert_eq!(engine.measured_ticks_per_second(), ratio(2, 3));
}

#[test]
fn on_tick_completed_keeps_the_measurement_when_no_time_has_passed() {
    let mut engine = TickEnginePlugin::default();
    let mut history = TickHistory::default();

    engine.on_tick_completed(ratio(0, 1), &mut history);
    assert_eq!(engine.measured_ticks_per_second(), ratio(0, 1));

    engine.on_tick_completed(ratio(1, 100), &mut history);
    engine.on_tick_completed(ratio(0, 1), &mut history);
    assert_eq!(engine.measured_ticks_per_second(), ratio(100, 1));
    let measured = as_f64(engine.measured_ticks_per_second());
    assert_eq!(measured, 100.0);
    assert!(!measured.is_nan());

    engine.on_tick_completed(ratio(0, 1_000_000_000), &mut history);
    assert_eq!(engine.measured_ticks_per_second(), ratio(100, 1));
}

#[test]
fn on_tick_completed_keeps_the_measurement_when_the_elapsed_time_is_not_a_number() {
    let mut engine = TickEnginePlugin::default();
    let mut history = TickHistory::default();
    engine.on_tick_completed(ratio(1, 25), &mut history);

    engine.on_tick_completed(ratio(1, 0), &mut history);
    assert_eq!(engine.measured_ticks_per_second(), ratio(25, 1));
    engine.on_tick_completed(ratio(0, 0), &mut history);
    assert_eq!(engine.measured_ticks_per_second(), ratio(25, 1));
}

#[test]
fn on_tick_completed_clears_the_history() {
    let mut engine = TickEnginePlugin::default();
    let cleared = TickHistory { tick_counter: 0, seconds_elapsed: ratio(0, 1) };
    assert_eq!(TickHistory::default(), cleared);

    let mut history = TickHistory { tick_counter: 7, seconds_elapsed: ratio(3, 4) };
    engine.on_tick_completed(ratio(1, 100), &mut history);
    assert_eq!(history, cleared);

    let mut history = TickHistory { tick_counter: u64::MAX, seconds_elapsed: ratio(9, 0) };
    engine.on_tick_completed(ratio(0, 1), &mut history);
    assert_eq!(history, cleared);
}

#[test]
fn on_tick_completed_never_touches_the_target() {
    let mut engine = TickEnginePlugin::default();
    let mut history = TickHistory::default();
    assert_eq!(engine.set_target_rate(60), Ok(()));
    engine.on_tick_completed(ratio(1, 10), &mut history);
    assert_eq!(engine.target_ticks_per_second(), 60);
    assert_eq!(engine.get_time_delta(), ratio(1, 60));
    assert_eq!(engine.check_target_tps_changed(), Some(ratio(1, 60)));
}

#[test]
fn a_tick_that_took_the_timestep_measures_the_target() {
    let mut engine = TickEnginePlugin::default();
    let mut history = TickHistory::default();
    for n in [1, 24, 100, 1_000_000] {
        assert_eq!(engine.set_target_rate(n), Ok(()));
        let timestep = engine.get_time_delta();
        engine.on_tick_completed(timestep, &mut history);
        assert_eq!(engine.measured_ticks_per_second(), ratio(n as u64, 1));
    }
}

#[test]
fn check_target_tps_changed_is_quiet_on_a_fresh_engine() {
    let mut engine = TickEnginePlugin::default();
    assert_eq!(engine.check_target_tps_changed(), None);
    assert_eq!(engine.check_target_tps_changed(), None);
    assert_eq!(engine.get_time_delta(), ratio(1, 100));
}

#[test]
fn check_target_tps_changed_hands_over_a_new_timestep_once() {
    let mut engine = TickEnginePlugin::default();
    assert_eq!(engine.set_target_rate(250), Ok(()));
    assert_eq!(engine.check_target_tps_changed(), Some(ratio(1, 250)));
    assert_eq!(engine.check_target_tps_changed(), None);
    assert_eq!(engine.target_ticks_per_second(), 250);
    assert_eq!(engine.get_time_delta(), ratio(1, 250));
}

#[test]
fn check_target_tps_changed_sees_only_the_last_of_several_changes() {
    let mut engine = TickEnginePlugin::default();
    assert_eq!(engine.set_target_rate(10), Ok(()));
    assert_eq!(engine.set_target_rate(20), Ok(()));
    assert_eq!(engine.check_target_tps_changed(), Some(ratio(1, 20)));
    assert_eq!(engine.check_target_tps_changed(), None);
}

#[test]
fn check_target_tps_changed_is_quiet_when_the_target_came_back() {
    let mut engine = TickEnginePlugin::default();
    assert_eq!(engine.set_target_rate(10), Ok(()));
    assert_eq!(engine.set_target_rate(100), Ok(()));
    assert_eq!(engine.check_target_tps_changed(), None);

    assert_eq!(engine.set_target_rate(100), Ok(()));
    assert_eq!(engine.check_target_tps_changed(), None);
}
