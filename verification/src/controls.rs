//! The mode button: what a press, a hold and a release ask for.

use vstd::prelude::*;
use crate::config::{ConfigInstance, ConfigModel};
use crate::display::{ChangeMode as DisplayChangeMode, Mode};
use crate::mode::ChangeMode as MisterChangeMode;
use crate::time::{elapsed, elapsed_ms};

verus! {

/// What the button did.
#[derive(Copy, Clone, PartialEq, Eq, Debug, Structural)]
pub enum ButtonState {
    Pressed,
    Held,
    Released,
}

/// The request that a button event publishes.
#[derive(Copy, Clone, PartialEq, Eq, Debug)]
pub enum ButtonRequest {
    /// For the channel of mister mode requests.
    Mister(MisterChangeMode),
    /// For the channel of display mode requests.
    Display(DisplayChangeMode),
}

/// What to make of the button after the wait that follows its activation.
#[derive(Copy, Clone, PartialEq, Eq, Debug, Structural)]
pub enum PressStep {
    /// The button was let go: a press.
    Pressed,
    /// The button is down for at least the hold time: a hold, and its
    /// release is to be waited for.
    Held,
    /// The button is down, but not long enough for a hold yet: wait again.
    Wait,
}

/// The request that a button event stands for: a press asks the mister for
/// its next mode, a hold asks the display for the info page, and the release
/// after a hold asks the display for its default page.
pub open spec fn button_request(state: ButtonState) -> ButtonRequest {
    match state {
        ButtonState::Pressed => ButtonRequest::Mister(MisterChangeMode { mode: None }),
        ButtonState::Held => ButtonRequest::Display(DisplayChangeMode { mode: Some(Mode::Info) }),
        ButtonState::Released => ButtonRequest::Display(DisplayChangeMode { mode: None }),
    }
}

/// What to make of the button at the time `now`, when it was activated at
/// `start_ms` and is down now or not.
pub open spec fn press_step(cfg: ConfigModel, is_high: bool, start_ms: u32, now: u32) -> PressStep {
    if !is_high {
        PressStep::Pressed
    } else if elapsed_ms(start_ms, now) >= cfg.controls_min_hold_ms {
        PressStep::Held
    } else {
        PressStep::Wait
    }
}

/// The request that a button event publishes.
pub fn handle_mode_button_event(state: ButtonState) -> (r: ButtonRequest)
    ensures
        r == button_request(state),
{
    match state {
        ButtonState::Pressed => ButtonRequest::Mister(MisterChangeMode::new(None)),
        ButtonState::Held => ButtonRequest::Display(DisplayChangeMode::new(Some(Mode::Info))),
        ButtonState::Released => ButtonRequest::Display(DisplayChangeMode::new(None)),
    }
}

/// Says what to make of the button after the wait that follows its
/// activation at `start_ms`: `is_high` is its level at the time `now`.
pub fn controls_task_poll(cfg: &ConfigInstance, is_high: bool, start_ms: u32, now: u32) -> (r: PressStep)
    ensures
        r == press_step(cfg@, is_high, start_ms, now),
{
    if is_high {
        if elapsed(start_ms, now) >= cfg.controls_min_hold_ms {
            PressStep::Held
        } else {
            PressStep::Wait
        }
    } else {
        PressStep::Pressed
    }
}

} // verus!
