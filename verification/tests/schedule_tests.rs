use humidistat::config::{ConfigInstance, MisterAutoSchedule};
use humidistat::error::Error;
use humidistat::event::Delivery;
use humidistat::mode::Mode;
use humidistat::schedule::{
    get_auto_schedule, mister_auto_schedule_check, mister_auto_schedule_next,
    mister_auto_schedule_start, mister_auto_schedule_task_poll, mister_auto_schedule_wake,
    AutoScheduleMode, AutoScheduleState, SchedulePoll, ScheduleWake,
    AUTO_SCHEDULE_PENDING_SLEEP_MS,
};
use humidistat::sensor::SensorMetrics;
use humidistat::time::elapsed;

fn cfg3() -> ConfigInstance {
    let mut cfg = ConfigInstance::default();
    cfg.mister_auto_schedule = vec![
        MisterAutoSchedule::new(85_000, 120, None),
        MisterAutoSchedule::new(88_000, 60, None),
        MisterAutoSchedule::new(90_000, 30, None),
    ];
    cfg.mister_auto_on_rh_adj = Some(-1_000);
    cfg
}

fn rh(rh: i32) -> Option<SensorMetrics> {
    Some(SensorMetrics { temp: 20_000, rh })
}

fn initial() -> AutoScheduleState {
    AutoScheduleState { mode: AutoScheduleMode::Initial, idx: 0, start_time: 0 }
}

fn pending(idx: usize) -> AutoScheduleState {
    AutoScheduleState { mode: AutoScheduleMode::Pending, idx, start_time: 0 }
}

fn running(idx: usize, start_time: u32) -> AutoScheduleState {
    AutoScheduleState { mode: AutoScheduleMode::Running, idx, start_time }
}

#[test]
fn elapsed_time() {
    assert_eq!(elapsed(100, 350), 250);
    assert_eq!(elapsed(7, 7), 0);
    assert_eq!(elapsed(u32::MAX, 0), 1);
    assert_eq!(elapsed(u32::MAX - 9, 10), 20);
    assert_eq!(elapsed(0, u32::MAX), u32::MAX);
}

#[test]
fn stepper_state_basics() {
    assert_eq!(AutoScheduleState::default(), initial());
    assert_eq!(AutoScheduleState::new(AutoScheduleMode::Running, 2, 99), running(2, 99));
    let mut state = running(2, 99);
    state.reset();
    assert_eq!(state, initial());
    assert_eq!(running(0, 1_000).running_ms(1_250), 250);
    assert_eq!(AUTO_SCHEDULE_PENDING_SLEEP_MS, 100);
}

#[test]
fn remaining_time_of_a_run() {
    let cfg = cfg3();
    assert_eq!(running(0, 1_000).remaining_ms(&cfg, 1_000), Some(120_000));
    assert_eq!(running(0, 1_000).remaining_ms(&cfg, 21_000), Some(100_000));
    assert_eq!(running(0, 1_000).remaining_ms(&cfg, 121_000), Some(0));
    assert_eq!(running(0, 1_000).remaining_ms(&cfg, 500_000), Some(0));
    assert_eq!(running(2, 1_000).remaining_ms(&cfg, 1_001), Some(29_999));
    assert_eq!(running(3, 1_000).remaining_ms(&cfg, 1_001), None);
    let mut cfg = cfg3();
    cfg.mister_auto_schedule = vec![MisterAutoSchedule::new(85_000, u32::MAX, None)];
    assert_eq!(running(0, 0).remaining_ms(&cfg, 1), Some(u32::MAX as u64 * 1000 - 1));
}

#[test]
fn entry_and_active_setpoint() {
    let cfg = cfg3();
    assert_eq!(pending(1).get_auto_schedule(&cfg), Some(MisterAutoSchedule::new(88_000, 60, None)));
    assert_eq!(pending(3).get_auto_schedule(&cfg), None);
    assert_eq!(initial().get_auto_schedule(&cfg), Some(MisterAutoSchedule::new(85_000, 120, None)));
    assert_eq!(initial().active_setpoint(&cfg), None);
    assert_eq!(pending(2).active_setpoint(&cfg), Some(MisterAutoSchedule::new(90_000, 30, None)));
    assert_eq!(running(0, 5).active_setpoint(&cfg), Some(MisterAutoSchedule::new(85_000, 120, None)));
    assert_eq!(running(7, 5).active_setpoint(&cfg), None);
}

#[test]
fn missing_entry_cancels_the_stepper() {
    let cfg = cfg3();
    let mut state = pending(3);
    assert!(matches!(get_auto_schedule(&cfg, &mut state), Err(Error::GeneralFault { .. })));
    assert_eq!(state, initial());
    let mut state = running(1, 44);
    assert_eq!(get_auto_schedule(&cfg, &mut state), Ok(MisterAutoSchedule::new(88_000, 60, None)));
    assert_eq!(state, running(1, 44));
}

#[test]
fn start_waits_for_the_setpoint() {
    let cfg = cfg3();
    let mut state = running(1, 44);
    assert_eq!(mister_auto_schedule_start(&cfg, &mut state, 2), Ok(()));
    assert_eq!(state, pending(2));
    assert!(mister_auto_schedule_start(&cfg, &mut state, 3).is_err());
    assert_eq!(state, initial());
}

#[test]
fn next_visits_in_order_and_wraps() {
    let cfg = cfg3();
    let mut state = pending(0);
    let mut seen = Vec::new();
    for _ in 0..7 {
        assert_eq!(mister_auto_schedule_next(&cfg, &mut state), Ok(()));
        assert_eq!(state.mode, AutoScheduleMode::Pending);
        assert_eq!(state.start_time, 0);
        seen.push(state.idx);
    }
    assert_eq!(seen, vec![1, 2, 0, 1, 2, 0, 1]);
}

#[test]
fn next_on_a_schedule_of_one_stays_at_zero() {
    let mut cfg = cfg3();
    cfg.mister_auto_schedule.truncate(1);
    let mut state = running(0, 9);
    assert_eq!(mister_auto_schedule_next(&cfg, &mut state), Ok(()));
    assert_eq!(state, pending(0));
}

#[test]
fn next_on_an_empty_schedule_fails() {
    let mut cfg = cfg3();
    cfg.mister_auto_schedule.clear();
    let mut state = running(0, 9);
    assert!(matches!(mister_auto_schedule_next(&cfg, &mut state), Err(Error::GeneralFault { .. })));
    assert_eq!(state, initial());
}

#[test]
fn pending_starts_to_run_inside_the_band() {
    let cfg = cfg3();
    for (value, starts) in
        [(83_999, false), (84_000, true), (84_500, true), (85_000, true), (85_001, false), (90_000, false)]
    {
        let mut state = pending(0);
        assert_eq!(mister_auto_schedule_check(&cfg, &mut state, rh(value), 7_000), Ok(()));
        if starts {
            assert_eq!(state, running(0, 7_000));
        } else {
            assert_eq!(state, pending(0));
        }
    }
}

#[test]
fn running_goes_on_when_the_run_time_is_over() {
    let cfg = cfg3();
    let mut state = running(1, 1_000);
    assert_eq!(mister_auto_schedule_check(&cfg, &mut state, rh(50_000), 60_999), Ok(()));
    assert_eq!(state, running(1, 1_000));
    assert_eq!(mister_auto_schedule_check(&cfg, &mut state, rh(50_000), 61_000), Ok(()));
    assert_eq!(state, pending(2));
    let mut state = running(2, 1_000);
    assert_eq!(mister_auto_schedule_check(&cfg, &mut state, rh(50_000), 40_000), Ok(()));
    assert_eq!(state, pending(0));
}

#[test]
fn check_without_reading_fails_and_keeps_the_state() {
    let cfg = cfg3();
    for before in [pending(1), running(1, 5)] {
        let mut state = before;
        let r = mister_auto_schedule_check(&cfg, &mut state, None, 999_999);
        assert!(matches!(r, Err(Error::GeneralFault { .. })));
        assert_eq!(state, before);
    }
}

#[test]
fn check_without_entry_cancels() {
    let cfg = cfg3();
    let mut state = running(5, 5);
    assert!(mister_auto_schedule_check(&cfg, &mut state, rh(1), 9).is_err());
    assert_eq!(state, initial());
}

#[test]
fn poll_outside_of_auto_is_idle_and_cancels() {
    let cfg = cfg3();
    for before in [initial(), pending(2), running(1, 77)] {
        let mut state = before;
        let r = mister_auto_schedule_task_poll(&cfg, &mut state, false, rh(84_500), 100);
        assert_eq!(r, Ok(SchedulePoll::Idle));
        assert_eq!(state, initial());
    }
}

#[test]
fn poll_entering_auto_waits_for_the_first_setpoint() {
    let cfg = cfg3();
    let mut state = initial();
    let r = mister_auto_schedule_task_poll(&cfg, &mut state, true, None, 100);
    assert_eq!(r, Ok(SchedulePoll::Sleep { ms: 100 }));
    assert_eq!(state, pending(0));
}

#[test]
fn leaving_and_entering_auto_restarts_at_the_first_setpoint() {
    let cfg = cfg3();
    for before in [pending(2), running(1, 77), running(2, 1)] {
        let mut state = before;
        mister_auto_schedule_task_poll(&cfg, &mut state, false, rh(84_500), 100).unwrap();
        mister_auto_schedule_task_poll(&cfg, &mut state, true, rh(84_500), 200).unwrap();
        assert_eq!(state, pending(0));
        // The same through the message that the mode has changed.
        let mut state = before;
        let wake = ScheduleWake::ModeChanged(Delivery::Message(Mode::Off));
        assert_eq!(mister_auto_schedule_wake(&cfg, &mut state, wake, rh(84_500), 100), Ok(()));
        assert_eq!(state, initial());
        mister_auto_schedule_task_poll(&cfg, &mut state, true, rh(84_500), 200).unwrap();
        assert_eq!(state, pending(0));
    }
}

#[test]
fn poll_on_an_empty_schedule_fails() {
    let mut cfg = cfg3();
    cfg.mister_auto_schedule.clear();
    let mut state = initial();
    let r = mister_auto_schedule_task_poll(&cfg, &mut state, true, rh(84_500), 100);
    assert!(matches!(r, Err(Error::GeneralFault { .. })));
    assert_eq!(state, initial());
    let mut state = pending(0);
    assert!(mister_auto_schedule_task_poll(&cfg, &mut state, true, rh(84_500), 100).is_err());
    assert_eq!(state, initial());
}

#[test]
fn poll_while_running_sleeps_for_the_rest_of_the_run() {
    let cfg = cfg3();
    let mut state = running(0, 1_000);
    let r = mister_auto_schedule_task_poll(&cfg, &mut state, true, rh(50_000), 31_000);
    assert_eq!(r, Ok(SchedulePoll::Sleep { ms: 90_000 }));
    assert_eq!(state, running(0, 1_000));
    let r = mister_auto_schedule_task_poll(&cfg, &mut state, true, rh(50_000), 120_999);
    assert_eq!(r, Ok(SchedulePoll::Sleep { ms: 1 }));
}

#[test]
fn poll_while_running_with_no_time_left_checks_at_once() {
    let cfg = cfg3();
    let mut state = running(0, 1_000);
    let r = mister_auto_schedule_task_poll(&cfg, &mut state, true, rh(50_000), 121_000);
    assert_eq!(r, Ok(SchedulePoll::Checked));
    assert_eq!(state, pending(1));
    // Without a reading the check fails and the stepper stays.
    let mut state = running(0, 1_000);
    let r = mister_auto_schedule_task_poll(&cfg, &mut state, true, None, 121_000);
    assert!(matches!(r, Err(Error::GeneralFault { .. })));
    assert_eq!(state, running(0, 1_000));
}

#[test]
fn poll_while_running_without_start_time_cancels() {
    let cfg = cfg3();
    let mut state = running(1, 0);
    let r = mister_auto_schedule_task_poll(&cfg, &mut state, true, rh(50_000), 5);
    assert!(matches!(r, Err(Error::GeneralFault { .. })));
    assert_eq!(state, initial());
}

#[test]
fn wake_by_timer_checks() {
    let cfg = cfg3();
    let mut state = pending(0);
    assert_eq!(
        mister_auto_schedule_wake(&cfg, &mut state, ScheduleWake::Timer, rh(84_000), 300),
        Ok(())
    );
    assert_eq!(state, running(0, 300));
    let r = mister_auto_schedule_wake(&cfg, &mut state, ScheduleWake::Timer, None, 400);
    assert!(r.is_err());
    assert_eq!(state, running(0, 300));
}

#[test]
fn wake_by_lagged_channel_changes_nothing() {
    let cfg = cfg3();
    let mut state = running(1, 300);
    let wake = ScheduleWake::ModeChanged(Delivery::Lagged(4));
    assert_eq!(mister_auto_schedule_wake(&cfg, &mut state, wake, None, 999_999), Ok(()));
    assert_eq!(state, running(1, 300));
}
