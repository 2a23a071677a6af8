use raspi_fancon::config::Environment;
use raspi_fancon::controller::{Controller, LoopEvent, LoopStatus, PinAction};

fn test_env(on_t: u32, off_t: u32) -> Environment {
    Environment {
        temperature_file: "/tmp/temp".to_string(),
        fan_pin: 14,
        fan_on_temp: on_t,
        fan_off_temp: off_t,
        check_temp_interval_secs: 5,
    }
}

#[test]
fn literal_sequence_transitions_only_at_75_and_55() {
    let env = test_env(70, 60);
    let mut c = Controller::init(&env, false);
    let readings = [50u32, 65, 75, 68, 55];
    let expected = [
        PinAction::Leave,
        PinAction::Leave,
        PinAction::SetHigh,
        PinAction::Leave,
        PinAction::SetLow,
    ];
    for (t, want) in readings.iter().zip(expected.iter()) {
        let (action, status) = c.step(LoopEvent::Reading(*t));
        assert_eq!(action, *want);
        assert_eq!(status, LoopStatus::KeepRunning);
    }
    assert!(!c.fan_on);
}

#[test]
fn energize_exactly_once_at_constant_high_temperature() {
    let env = test_env(70, 60);
    let mut c = Controller::init(&env, false);
    let (a1, _) = c.step(LoopEvent::Reading(75));
    assert_eq!(a1, PinAction::SetHigh);
    assert!(c.fan_on);
    let (a2, _) = c.step(LoopEvent::Reading(75));
    assert_eq!(a2, PinAction::Leave);
    assert!(c.fan_on);
    let (a3, _) = c.step(LoopEvent::Reading(90));
    assert_eq!(a3, PinAction::Leave);
    assert!(c.fan_on);
}

#[test]
fn deenergize_exactly_once_at_constant_low_temperature() {
    let env = test_env(70, 60);
    let mut c = Controller::init(&env, true);
    let (a1, _) = c.step(LoopEvent::Reading(55));
    assert_eq!(a1, PinAction::SetLow);
    assert!(!c.fan_on);
    let (a2, _) = c.step(LoopEvent::Reading(55));
    assert_eq!(a2, PinAction::Leave);
    assert!(!c.fan_on);
}

#[test]
fn threshold_boundaries_are_inclusive() {
    let env = test_env(70, 60);
    let mut c = Controller::init(&env, false);
    let (a1, _) = c.step(LoopEvent::Reading(70));
    assert_eq!(a1, PinAction::SetHigh);
    let (a2, _) = c.step(LoopEvent::Reading(60));
    assert_eq!(a2, PinAction::SetLow);
}

#[test]
fn dead_band_leaves_state_unchanged() {
    let env = test_env(70, 60);
    let mut on = Controller::init(&env, true);
    let (a_on, _) = on.step(LoopEvent::Reading(65));
    assert_eq!(a_on, PinAction::Leave);
    assert!(on.fan_on);
    let mut off = Controller::init(&env, false);
    let (a_off, _) = off.step(LoopEvent::Reading(65));
    assert_eq!(a_off, PinAction::Leave);
    assert!(!off.fan_on);
}

#[test]
fn sensor_failure_drives_pin_low_from_on() {
    let env = test_env(70, 60);
    let mut c = Controller::init(&env, true);
    let (action, status) = c.step(LoopEvent::SensorFailed);
    assert_eq!(action, PinAction::SetLow);
    assert_eq!(status, LoopStatus::ExitSensorError);
    assert!(!c.fan_on);
}

#[test]
fn sensor_failure_drives_pin_low_from_off() {
    let env = test_env(70, 60);
    let mut c = Controller::init(&env, false);
    let (action, status) = c.step(LoopEvent::SensorFailed);
    assert_eq!(action, PinAction::SetLow);
    assert_eq!(status, LoopStatus::ExitSensorError);
}

#[test]
fn startup_adopts_high_pin_without_spurious_transition() {
    let env = test_env(70, 60);
    let mut c = Controller::init(&env, true);
    assert!(c.fan_on);
    let (action, status) = c.step(LoopEvent::Reading(80));
    assert_eq!(action, PinAction::Leave);
    assert_eq!(status, LoopStatus::KeepRunning);
    assert!(c.fan_on);
}

#[test]
fn termination_drives_pin_low_and_exits_cleanly() {
    let env = test_env(70, 60);
    let mut on = Controller::init(&env, true);
    assert_eq!(on.step(LoopEvent::Terminate), (PinAction::SetLow, LoopStatus::ExitOk));
    let mut off = Controller::init(&env, false);
    assert_eq!(off.step(LoopEvent::Terminate), (PinAction::SetLow, LoopStatus::ExitOk));
}
