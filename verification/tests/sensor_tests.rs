use humidistat::config::ConfigInstance;
use humidistat::sensor::{
    emitter_init_failed, emitter_poll, SensorMetrics, SensorStep, MAX_ATTEMPTS, MAX_RH, RESET_DELAY_MS, RETRY_DELAY_MS,
};

#[test]
fn sensor_constants() {
    assert_eq!(MAX_RH, 100_000);
    assert_eq!(MAX_ATTEMPTS, 10);
    assert_eq!(RETRY_DELAY_MS, 100);
    assert_eq!(RESET_DELAY_MS, 250);
}

#[test]
fn good_reading_is_calibrated_and_published() {
    let cfg = ConfigInstance::default();
    let mut failed = 0u8;
    let mut last = None;
    let step = emitter_poll(&cfg, &mut failed, &mut last, Some((21_500, 60_000)));
    let expected = SensorMetrics { temp: 21_500, rh: 65_000 };
    assert_eq!(
        step,
        SensorStep::Publish { metrics: Some(expected), delay_ms: 500, reload: false }
    );
    assert_eq!(last, Some(expected));
    assert_eq!(failed, 0);
}

#[test]
fn calibrated_humidity_is_held_at_one_hundred_percent() {
    let cfg = ConfigInstance::default();
    let mut failed = 0u8;
    let mut last = None;
    let step = emitter_poll(&cfg, &mut failed, &mut last, Some((20_000, 97_000)));
    assert_eq!(
        step,
        SensorStep::Publish {
            metrics: Some(SensorMetrics { temp: 20_000, rh: 100_000 }),
            delay_ms: 500,
            reload: false
        }
    );
    // Exactly at the limit after calibration.
    let step = emitter_poll(&cfg, &mut failed, &mut last, Some((20_000, 95_000)));
    assert_eq!(last, Some(SensorMetrics { temp: 20_000, rh: 100_000 }));
    assert!(matches!(step, SensorStep::Publish { reload: false, .. }));
    // The largest reading there is.
    emitter_poll(&cfg, &mut failed, &mut last, Some((1, i32::MAX)));
    assert_eq!(last, Some(SensorMetrics { temp: 1, rh: 100_000 }));
}

#[test]
fn reading_without_calibration_offset() {
    let mut cfg = ConfigInstance::default();
    cfg.sensor_calibration_rh_adj = None;
    let mut failed = 0u8;
    let mut last = None;
    emitter_poll(&cfg, &mut failed, &mut last, Some((20_000, 42_123)));
    assert_eq!(last, Some(SensorMetrics { temp: 20_000, rh: 42_123 }));
    emitter_poll(&cfg, &mut failed, &mut last, Some((20_000, 120_000)));
    assert_eq!(last, Some(SensorMetrics { temp: 20_000, rh: 100_000 }));
}

#[test]
fn negative_calibration_offset() {
    let mut cfg = ConfigInstance::default();
    cfg.sensor_calibration_rh_adj = Some(-2_000);
    let mut failed = 0u8;
    let mut last = None;
    emitter_poll(&cfg, &mut failed, &mut last, Some((20_000, 50_000)));
    assert_eq!(last, Some(SensorMetrics { temp: 20_000, rh: 48_000 }));
    emitter_poll(&cfg, &mut failed, &mut last, Some((20_000, 1_000)));
    assert_eq!(last, Some(SensorMetrics { temp: 20_000, rh: -1_000 }));
}

#[test]
fn reading_at_or_below_zero_counts_as_failed() {
    let cfg = ConfigInstance::default();
    for reading in [Some((0, 50_000)), Some((20_000, 0)), Some((-1, 50_000)), Some((20_000, -5)), None]
    {
        let mut failed = 0u8;
        let mut last = Some(SensorMetrics { temp: 1, rh: 1 });
        let step = emitter_poll(&cfg, &mut failed, &mut last, reading);
        assert_eq!(step, SensorStep::Retry { reset: false, delay_ms: 100 });
        assert_eq!(failed, 1);
        assert_eq!(last, Some(SensorMetrics { temp: 1, rh: 1 }));
    }
}

#[test]
fn exhausted_budget_publishes_absent_exactly_once() {
    let cfg = ConfigInstance::default();
    let mut failed = 0u8;
    let mut last = Some(SensorMetrics { temp: 20_000, rh: 50_000 });
    let mut steps = Vec::new();
    for _ in 0..MAX_ATTEMPTS {
        steps.push(emitter_poll(&cfg, &mut failed, &mut last, None));
    }
    let publications =
        steps.iter().filter(|s| matches!(s, SensorStep::Publish { .. })).count();
    assert_eq!(publications, 1);
    for step in &steps[0..8] {
        assert_eq!(*step, SensorStep::Retry { reset: false, delay_ms: 100 });
    }
    assert_eq!(steps[8], SensorStep::Retry { reset: true, delay_ms: 250 });
    assert_eq!(
        steps[9],
        SensorStep::Publish { metrics: None, delay_ms: 10_000, reload: true }
    );
    // The last known good reading stays.
    assert_eq!(last, Some(SensorMetrics { temp: 20_000, rh: 50_000 }));
    // The next attempt starts a new cycle.
    assert_eq!(failed, 0);
    assert_eq!(
        emitter_poll(&cfg, &mut failed, &mut last, None),
        SensorStep::Retry { reset: false, delay_ms: 100 }
    );
}

#[test]
fn success_on_the_last_attempt_needs_no_reload() {
    let cfg = ConfigInstance::default();
    let mut failed = 0u8;
    let mut last = None;
    for _ in 0..9 {
        let step = emitter_poll(&cfg, &mut failed, &mut last, Some((0, 0)));
        assert!(matches!(step, SensorStep::Retry { .. }));
    }
    assert_eq!(failed, 9);
    let step = emitter_poll(&cfg, &mut failed, &mut last, Some((20_000, 40_000)));
    assert_eq!(
        step,
        SensorStep::Publish {
            metrics: Some(SensorMetrics { temp: 20_000, rh: 45_000 }),
            delay_ms: 500,
            reload: false
        }
    );
    assert_eq!(failed, 0);
}

#[test]
fn counter_beyond_the_budget_ends_the_cycle() {
    let cfg = ConfigInstance::default();
    let mut failed = 200u8;
    let mut last = None;
    let step = emitter_poll(&cfg, &mut failed, &mut last, None);
    assert_eq!(step, SensorStep::Publish { metrics: None, delay_ms: 10_000, reload: true });
    assert_eq!(failed, 0);
}

#[test]
fn delays_come_from_the_configuration() {
    let cfg = ConfigInstance::new(750, 3_000);
    let mut failed = 9u8;
    let mut last = None;
    assert_eq!(
        emitter_poll(&cfg, &mut failed, &mut last, None),
        SensorStep::Publish { metrics: None, delay_ms: 3_000, reload: true }
    );
    assert!(matches!(
        emitter_poll(&cfg, &mut failed, &mut last, Some((1, 1))),
        SensorStep::Publish { delay_ms: 750, reload: false, .. }
    ));
}

#[test]
fn driver_that_cannot_be_created_publishes_absent() {
    let cfg = ConfigInstance::new(750, 3_000);
    assert_eq!(
        emitter_init_failed(&cfg),
        SensorStep::Publish { metrics: None, delay_ms: 3_000, reload: true }
    );
}
