use humidistat::config::{ConfigInstance, MisterAutoSchedule};
use humidistat::controls::{
    controls_task_poll, handle_mode_button_event, ButtonRequest, ButtonState, PressStep,
};
use humidistat::display::{
    calculate_gauge_x, ceil_units, display_task_poll, status_label, ChangeMode, DisplayEvent,
    DisplayRenderer, Mode, StatusArea,
};
use humidistat::event::Delivery;
use humidistat::led::{mister_status_led_task_poll, LedEvent, STATUS_LED_BLINK_MS};
use humidistat::mode::{ChangeMode as MisterChangeMode, Mode as MisterMode, Status};
use humidistat::schedule::{AutoScheduleMode, AutoScheduleState};
use humidistat::sensor::SensorMetrics;

#[test]
fn led_follows_the_status() {
    let mut led = false;
    let on = LedEvent::Status(Delivery::Message(Status::On));
    let off = LedEvent::Status(Delivery::Message(Status::Off));
    assert_eq!(mister_status_led_task_poll(&mut led, on, &Some(Status::On)), Some(true));
    assert!(led);
    assert_eq!(mister_status_led_task_poll(&mut led, on, &Some(Status::On)), None);
    assert_eq!(mister_status_led_task_poll(&mut led, LedEvent::Tick, &Some(Status::On)), None);
    assert!(led);
    assert_eq!(mister_status_led_task_poll(&mut led, off, &Some(Status::Off)), Some(false));
    assert_eq!(mister_status_led_task_poll(&mut led, off, &Some(Status::Off)), None);
    assert_eq!(mister_status_led_task_poll(&mut led, LedEvent::Tick, &Some(Status::Off)), None);
    assert_eq!(mister_status_led_task_poll(&mut led, LedEvent::Tick, &None), None);
    assert!(!led);
    assert_eq!(STATUS_LED_BLINK_MS, 400);
}

#[test]
fn led_blinks_on_a_fault() {
    let mut led = false;
    let fault = LedEvent::Status(Delivery::Message(Status::Fault));
    assert_eq!(mister_status_led_task_poll(&mut led, fault, &Some(Status::Fault)), Some(true));
    let mut levels = Vec::new();
    for _ in 0..4 {
        levels.push(mister_status_led_task_poll(&mut led, LedEvent::Tick, &Some(Status::Fault)));
    }
    assert_eq!(levels, vec![Some(false), Some(true), Some(false), Some(true)]);
}

#[test]
fn led_ignores_a_lagged_channel() {
    for level in [false, true] {
        let mut led = level;
        let event = LedEvent::Status(Delivery::Lagged(1));
        assert_eq!(mister_status_led_task_poll(&mut led, event, &Some(Status::Fault)), None);
        assert_eq!(led, level);
    }
}

#[test]
fn button_events() {
    assert_eq!(
        handle_mode_button_event(ButtonState::Pressed),
        ButtonRequest::Mister(MisterChangeMode { mode: None })
    );
    assert_eq!(
        handle_mode_button_event(ButtonState::Held),
        ButtonRequest::Display(ChangeMode { mode: Some(Mode::Info) })
    );
    assert_eq!(
        handle_mode_button_event(ButtonState::Released),
        ButtonRequest::Display(ChangeMode { mode: None })
    );
}

#[test]
fn press_and_hold() {
    let cfg = ConfigInstance::default();
    assert_eq!(controls_task_poll(&cfg, false, 1_000, 1_100), PressStep::Pressed);
    assert_eq!(controls_task_poll(&cfg, false, 1_000, 9_000), PressStep::Pressed);
    assert_eq!(controls_task_poll(&cfg, true, 1_000, 1_499), PressStep::Wait);
    assert_eq!(controls_task_poll(&cfg, true, 1_000, 1_500), PressStep::Held);
    assert_eq!(controls_task_poll(&cfg, true, u32::MAX - 99, 400), PressStep::Held);
    assert_eq!(controls_task_poll(&cfg, true, u32::MAX - 99, 399), PressStep::Wait);
}

#[test]
fn display_modes() {
    assert_eq!(Mode::default(), Mode::MisterMode);
    assert_eq!(ChangeMode::default().mode, None);
    assert_eq!(ChangeMode::new(Some(Mode::Info)).mode, Some(Mode::Info));
}

#[test]
fn display_starts_stale() {
    let display = DisplayRenderer::new(0, 0, None);
    assert_eq!(
        display,
        DisplayRenderer {
            stale: true,
            temp: 0,
            rh: 0,
            mode: Mode::MisterMode,
            mister_mode: None,
            mister_status: Status::Off
        }
    );
    assert_eq!(DisplayRenderer::new(1, 2, Some(Status::Fault)).mister_status, Status::Fault);
}

#[test]
fn display_draws_only_what_has_changed() {
    let mut display = DisplayRenderer::new(0, 0, None);
    assert!(display.draw());
    assert!(!display.draw());
    let reading = SensorMetrics { temp: 21_000, rh: 55_000 };
    let event = DisplayEvent::Sensor(Delivery::Message(Some(reading)));
    assert!(display_task_poll(&mut display, event));
    assert_eq!((display.temp, display.rh, display.stale), (21_000, 55_000, false));
    // The same reading again: nothing to draw.
    assert!(!display_task_poll(&mut display, event));
    // An absent reading shows zeros.
    assert!(display_task_poll(&mut display, DisplayEvent::Sensor(Delivery::Message(None))));
    assert_eq!((display.temp, display.rh), (0, 0));
    assert!(!display_task_poll(&mut display, DisplayEvent::Sensor(Delivery::Message(None))));
}

#[test]
fn display_takes_modes_and_status() {
    let mut display = DisplayRenderer::new(0, 0, None);
    display.draw();
    let info = DisplayEvent::ChangeMode(Delivery::Message(ChangeMode::new(Some(Mode::Info))));
    assert!(display_task_poll(&mut display, info));
    assert_eq!(display.mode, Mode::Info);
    let back = DisplayEvent::ChangeMode(Delivery::Message(ChangeMode::default()));
    assert!(display_task_poll(&mut display, back));
    assert_eq!(display.mode, Mode::MisterMode);
    assert!(display_task_poll(&mut display, DisplayEvent::MisterMode(Delivery::Message(MisterMode::On))));
    assert_eq!(display.mister_mode, Some(MisterMode::On));
    assert!(display_task_poll(&mut display, DisplayEvent::MisterStatus(Delivery::Message(Status::Fault))));
    assert_eq!(display.mister_status, Status::Fault);
    // The same status again is drawn again.
    assert!(display_task_poll(&mut display, DisplayEvent::MisterStatus(Delivery::Message(Status::Fault))));
}

#[test]
fn display_ignores_lagged_channels() {
    let mut display = DisplayRenderer::new(5, 6, None);
    let before = display;
    for event in [
        DisplayEvent::Sensor(Delivery::Lagged(1)),
        DisplayEvent::ChangeMode(Delivery::Lagged(2)),
        DisplayEvent::MisterMode(Delivery::Lagged(3)),
        DisplayEvent::MisterStatus(Delivery::Lagged(4)),
    ] {
        assert!(!display_task_poll(&mut display, event));
        assert_eq!(display, before);
    }
}

#[test]
fn gauge_positions() {
    assert_eq!(calculate_gauge_x(4, 6, 0), 20);
    assert_eq!(calculate_gauge_x(2, 6, 0), 26);
    assert_eq!(calculate_gauge_x(4, 10, 0), 12);
    assert_eq!(calculate_gauge_x(3, 10, 0), 17);
    assert_eq!(calculate_gauge_x(5, 10, 0), 7);
    assert_eq!(calculate_gauge_x(4, 10, 12), 0);
    assert_eq!(calculate_gauge_x(0, 10, 0), 32);
    let mut display = DisplayRenderer::new(9_000, 9_999, None);
    assert_eq!(display.temp_gauge_x(), 17);
    assert_eq!(display.rh_gauge_x(), 12);
    display.temp(9_001);
    display.rh(10_000);
    assert_eq!(display.temp_gauge_x(), 12);
    assert_eq!(display.rh_gauge_x(), 7);
}

#[test]
fn whole_units_round_up() {
    assert_eq!(ceil_units(0), 0);
    assert_eq!(ceil_units(-1), 0);
    assert_eq!(ceil_units(i32::MIN), 0);
    assert_eq!(ceil_units(1), 1);
    assert_eq!(ceil_units(1_000), 1);
    assert_eq!(ceil_units(1_001), 2);
    assert_eq!(ceil_units(84_500), 85);
    assert_eq!(ceil_units(i32::MAX), 2_147_484);
}

#[test]
fn status_labels() {
    assert_eq!(status_label(Status::On), "ON");
    assert_eq!(status_label(Status::Off), "OFF");
    assert_eq!(status_label(Status::Fault), "FAULT");
}

#[test]
fn status_area_of_the_display() {
    let mut cfg = ConfigInstance::default();
    cfg.mister_auto_schedule = vec![MisterAutoSchedule::new(84_200, 120, None)];
    let stepper = AutoScheduleState::new(AutoScheduleMode::Pending, 0, 0);
    let lost = AutoScheduleState::new(AutoScheduleMode::Pending, 3, 0);
    let mut display = DisplayRenderer::new(0, 0, Some(Status::Fault));
    assert_eq!(display.status_area(&stepper, &cfg), StatusArea::Blank);
    display.mister_mode(Some(MisterMode::Auto));
    assert_eq!(
        display.status_area(&stepper, &cfg),
        StatusArea::Auto { target: Some(85), status: Status::Fault }
    );
    assert_eq!(
        display.status_area(&lost, &cfg),
        StatusArea::Auto { target: None, status: Status::Fault }
    );
    display.mister_mode(Some(MisterMode::On));
    assert_eq!(display.status_area(&stepper, &cfg), StatusArea::Manual(Status::On));
    display.mister_mode(Some(MisterMode::Off));
    assert_eq!(display.status_area(&stepper, &cfg), StatusArea::Manual(Status::Off));
    display.mode(Mode::Info);
    assert_eq!(display.status_area(&stepper, &cfg), StatusArea::Info);
}
