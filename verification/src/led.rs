//! The status LED: lit while the mister is on, dark while it is off, and
//! blinking while the engine reports a fault.

use vstd::prelude::*;
use crate::event::Delivery;
use crate::mode::Status;

verus! {

/// The time after which the LED task wakes up without a status message, in
/// milliseconds. It is the blink interval on a fault.
pub const STATUS_LED_BLINK_MS: u32 = 400;

/// What woke the LED task.
#[derive(Copy, Clone, PartialEq, Eq, Debug)]
pub enum LedEvent {
    /// Something arrived on the channel of status changes.
    Status(Delivery<Status>),
    /// The blink interval was over.
    Tick,
}

/// The level of the LED after an event, given its level before and the
/// status that was published last: a status message lights it for on and
/// for a fault and darkens it for off; the end of the blink interval toggles
/// it while the status is a fault.
pub open spec fn led_after(high: bool, event: LedEvent, status: Option<Status>) -> bool {
    match event {
        LedEvent::Status(Delivery::Message(Status::Off)) => false,
        LedEvent::Status(Delivery::Message(_)) => true,
        LedEvent::Status(Delivery::Lagged(_)) => high,
        LedEvent::Tick => if status == Some(Status::Fault) {
            !high
        } else {
            high
        },
    }
}

/// Takes one event of the LED task. `led_high` is the level of the LED and
/// `status` the status published last. Hands back the level to drive the LED
/// to, where it has to change.
pub fn mister_status_led_task_poll(led_high: &mut bool, event: LedEvent, status: &Option<Status>) -> (r:
    Option<bool>)
    ensures
        *final(led_high) == led_after(*old(led_high), event, *status),
        r == if *final(led_high) != *old(led_high) {
            Some(*final(led_high))
        } else {
            None
        },
{
    let before = *led_high;
    match event {
        LedEvent::Status(delivery) => match delivery {
            Delivery::Lagged(_) => {},
            Delivery::Message(status) => match status {
                Status::Off => {
                    if *led_high {
                        *led_high = false;
                    }
                },
                Status::On => {
                    if !*led_high {
                        *led_high = true;
                    }
                },
                Status::Fault => {
                    if !*led_high {
                        *led_high = true;
                    }
                },
            },
        },
        LedEvent::Tick => {
            if let Some(Status::Fault) = status {
                if !*led_high {
                    *led_high = true;
                } else {
                    *led_high = false;
                }
            }
        },
    }
    if *led_high != before {
        Some(*led_high)
    } else {
        None
    }
}

/// While the status is on or off the LED is steady: once the status has
/// arrived, the end of a blink interval leaves the LED lit for on and dark
/// for off. While the status is a fault every blink interval toggles it.
pub proof fn lemma_led_policy(high: bool, status: Status)
    ensures
        ({
            let shown = led_after(high, LedEvent::Status(Delivery::Message(status)), Some(status));
            let later = led_after(shown, LedEvent::Tick, Some(status));
            &&& status == Status::On ==> shown && later
            &&& status == Status::Off ==> !shown && !later
            &&& status == Status::Fault ==> shown && !later
        }),
        led_after(high, LedEvent::Tick, Some(Status::Fault)) == !high,
{
}

} // verus!
