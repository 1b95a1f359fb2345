use humidistat::api::{error_response, ApiError, INTERNAL_SERVER_ERROR};
use humidistat::config::{ConfigInstance, MisterAutoSchedule, MutableConfigInstance};
use humidistat::event::Delivery;
use humidistat::mister::{mister_operation_task_poll, Mister, MisterEvent};
use humidistat::mode::{ChangeMode, Mode, Status};
use humidistat::schedule::{
    mister_auto_schedule_task_poll, mister_auto_schedule_wake, AutoScheduleMode,
    AutoScheduleState, SchedulePoll, ScheduleWake,
};
use humidistat::sensor::{emitter_poll, SensorMetrics, SensorStep};
use humidistat::storage::NvStorage;
use humidistat::store::{read_config_from_flash, Config};

fn cfg() -> ConfigInstance {
    let mut cfg = ConfigInstance::default();
    cfg.mister_auto_schedule = vec![MisterAutoSchedule::new(85_000, 120, None)];
    cfg.mister_auto_on_rh_adj = Some(-1_000);
    cfg.sensor_calibration_rh_adj = None;
    cfg
}

// What the device does with one reading: the sensor publishes it, the engine
// takes it, and the stepper looks at it when its sleep is over.
fn feed(
    cfg: &ConfigInstance,
    storage: &mut NvStorage,
    mister: &mut Mister,
    stepper: &mut AutoScheduleState,
    rh: i32,
    now: u32,
) {
    let mut failed = 0u8;
    let mut last = None;
    let step = emitter_poll(cfg, &mut failed, &mut last, Some((20_000, rh)));
    assert!(matches!(step, SensorStep::Publish { reload: false, .. }));
    let event = MisterEvent::Sensor(Delivery::Message(last));
    let (_, r) = mister_operation_task_poll(cfg, storage, mister, stepper, event, now);
    assert_eq!(r, Ok(()));
    let auto = mister.active_mode == Some(Mode::Auto);
    match mister_auto_schedule_task_poll(cfg, stepper, auto, last, now).unwrap() {
        SchedulePoll::Sleep { .. } => {
            mister_auto_schedule_wake(cfg, stepper, ScheduleWake::Timer, last, now).unwrap();
        }
        SchedulePoll::Idle | SchedulePoll::Checked => {}
    }
}

#[test]
fn one_setpoint_schedule_from_pending_to_running_and_around() {
    let cfg = cfg();
    let mut storage = NvStorage::new(0x9000, 0x0A00);
    let mut mister = Mister::new();
    let mut stepper = AutoScheduleState::default();

    // Mode set to Auto; the stepper takes over.
    let event = MisterEvent::ChangeMode(Delivery::Message(ChangeMode::new(Some(Mode::Auto))));
    let (fx, r) = mister_operation_task_poll(&cfg, &mut storage, &mut mister, &stepper, event, 1_000);
    assert_eq!(r, Ok(()));
    assert_eq!(fx.mode_changed, Some(Mode::Auto));
    assert_eq!(mister.status, Some(Status::Off));
    let poll = mister_auto_schedule_task_poll(&cfg, &mut stepper, true, None, 1_000);
    assert_eq!(poll, Ok(SchedulePoll::Sleep { ms: 100 }));
    assert_eq!(stepper.mode, AutoScheduleMode::Pending);
    assert_eq!(stepper.idx, 0);

    // 90 %: above the band. Pending, off.
    feed(&cfg, &mut storage, &mut mister, &mut stepper, 90_000, 2_000);
    assert_eq!(stepper.mode, AutoScheduleMode::Pending);
    assert_eq!(mister.status, Some(Status::Off));
    assert!(!mister.pin_high);

    // 84 %: the switch-on humidity. Running, on.
    feed(&cfg, &mut storage, &mut mister, &mut stepper, 84_000, 3_000);
    assert_eq!(stepper, AutoScheduleState::new(AutoScheduleMode::Running, 0, 3_000));
    assert_eq!(mister.status, Some(Status::On));
    assert!(mister.pin_high);

    // 84 % for the run time: still running just before the end.
    feed(&cfg, &mut storage, &mut mister, &mut stepper, 84_000, 122_999);
    assert_eq!(stepper, AutoScheduleState::new(AutoScheduleMode::Running, 0, 3_000));
    assert_eq!(mister.status, Some(Status::On));

    // After 120 s the stepper goes on, which for one setpoint is index 0
    // again, and with 84 % still in the band it runs again at once.
    let poll = mister_auto_schedule_task_poll(
        &cfg,
        &mut stepper,
        true,
        Some(SensorMetrics { temp: 20_000, rh: 84_000 }),
        123_000,
    );
    assert_eq!(poll, Ok(SchedulePoll::Checked));
    assert_eq!(stepper, AutoScheduleState::new(AutoScheduleMode::Pending, 0, 0));
    feed(&cfg, &mut storage, &mut mister, &mut stepper, 84_000, 124_000);
    assert_eq!(stepper, AutoScheduleState::new(AutoScheduleMode::Running, 0, 124_000));
    assert_eq!(mister.status, Some(Status::On));

    // Back at 85 %: off.
    feed(&cfg, &mut storage, &mut mister, &mut stepper, 85_000, 125_000);
    assert_eq!(mister.status, Some(Status::Off));
    assert!(!mister.pin_high);
}

#[test]
fn oversized_config_update_is_answered_with_500() {
    let mut storage = NvStorage::new(0x9000, 0x0A00);
    let mut store = Config::new(&mut storage, ConfigInstance::default(), None).unwrap();
    store.apply(&mut storage, MutableConfigInstance::new(), &[0xA0]).unwrap();
    let live = store.load().snapshot();

    let mut update = MutableConfigInstance::new();
    update.mister_auto_schedule = Some(vec![MisterAutoSchedule::new(85_000, 120, Some(300)); 400]);
    let encoded = vec![0x55u8; 4_000];
    let fault = store.apply(&mut storage, update, &encoded).unwrap_err();

    // The persisted configuration and the live one are unchanged.
    assert_eq!(read_config_from_flash(&storage), Ok(Some(vec![0xA0])));
    assert_eq!(*store.load(), live);

    // The answer carries the status 500 and a body of code and message.
    let body = ApiError::from_error(&fault);
    assert_eq!(body.code, 500);
    assert_eq!(body.message, fault.to_text());
    assert!(body.message.starts_with("A general fault occurred: "));
    let encoded_body = format!("{{\"code\":{},\"message\":\"{}\"}}", body.code, body.message);
    let answer = error_response(INTERNAL_SERVER_ERROR, &fault, Ok(encoded_body.clone()));
    assert_eq!(answer.status, 500);
    assert_eq!(answer.body, encoded_body);
}

#[test]
fn sensor_that_stays_silent_publishes_once_per_cycle() {
    let cfg = cfg();
    let mut failed = 0u8;
    let mut last = None;
    let mut published = Vec::new();
    let mut reloads = 0;
    for _ in 0..30 {
        if let SensorStep::Publish { metrics, reload, .. } =
            emitter_poll(&cfg, &mut failed, &mut last, None)
        {
            published.push(metrics);
            if reload {
                reloads += 1;
            }
        }
    }
    assert_eq!(published, vec![None, None, None]);
    assert_eq!(reloads, 3);
}
