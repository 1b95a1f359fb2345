//! The reset coordinator: a reset that was asked for happens later, after a
//! grace period, so that whoever asked can finish first.

use vstd::prelude::*;
use crate::config::ConfigInstance;
use crate::event::Delivery;

verus! {

/// What the coordinator can be asked to do.
#[derive(Copy, Clone, PartialEq, Eq, Debug, Structural)]
pub enum ChipControlAction {
    Reset,
}

/// A restart of the device that is due after `wait_secs` seconds.
#[derive(Copy, Clone, PartialEq, Eq, Debug, Structural)]
pub struct Restart {
    pub wait_secs: u32,
}

/// Takes what arrived on the coordinator's channel. A request for a reset
/// asks for a restart after the configured grace period. The notice that
/// the subscriber fell behind is ignored: a request lost that way is not
/// made up for.
pub fn chip_control_task_poll(cfg: &ConfigInstance, event: Delivery<ChipControlAction>) -> (r: Option<
    Restart,
>)
    ensures
        r == match event {
            Delivery::Lagged(_) => None::<Restart>,
            Delivery::Message(ChipControlAction::Reset) => Some(
                Restart { wait_secs: cfg@.reset_wait_secs },
            ),
        },
{
    match event {
        Delivery::Lagged(_) => None,
        Delivery::Message(action) => match action {
            ChipControlAction::Reset => Some(Restart { wait_secs: cfg.reset_wait_secs }),
        },
    }
}

} // verus!
