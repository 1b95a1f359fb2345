//! Operating mode of the mister, the status it is driven to, and the requests
//! that change the mode.

use vstd::prelude::*;
use vstd::string::*;

verus! {

/// What the user asked the mister to do.
#[derive(Copy, Clone, PartialEq, Eq, Debug, Structural)]
pub enum Mode {
    Auto,
    Off,
    On,
}

/// What the mister is doing. A status is always derived from the mode and the
/// readings; nothing sets it directly.
#[derive(Copy, Clone, PartialEq, Eq, Debug, Structural)]
pub enum Status {
    Off,
    On,
    Fault,
}

/// A request to change the mode: to the given mode, or, with none given, to
/// the mode that follows the active one.
#[derive(Copy, Clone, PartialEq, Eq, Debug)]
pub struct ChangeMode {
    pub mode: Option<Mode>,
}

impl Mode {
    /// The byte that stands for this mode in storage.
    pub open spec fn code(self) -> u8 {
        match self {
            Mode::Auto => 1,
            Mode::Off => 2,
            Mode::On => 3,
        }
    }

    /// The mode that a byte stands for; a byte that stands for none gives
    /// `Auto`.
    pub open spec fn of_code(value: u8) -> Mode {
        if value == 2 {
            Mode::Off
        } else if value == 3 {
            Mode::On
        } else {
            Mode::Auto
        }
    }

    /// The mode that follows this one in the cycle Auto, Off, On.
    pub open spec fn next(self) -> Mode {
        match self {
            Mode::Auto => Mode::Off,
            Mode::Off => Mode::On,
            Mode::On => Mode::Auto,
        }
    }

    /// The smallest mode byte.
    pub fn min() -> (r: u8)
        ensures
            r == 1,
            forall|m: Mode| r <= #[trigger] m.code(),
    {
        1
    }

    /// The largest mode byte.
    pub fn max() -> (r: u8)
        ensures
            r == 3,
            forall|m: Mode| #[trigger] m.code() <= r,
    {
        3
    }

    /// The byte that stands for this mode in storage.
    pub fn as_u8(self) -> (r: u8)
        ensures
            r == self.code(),
    {
        match self {
            Mode::Auto => 1,
            Mode::Off => 2,
            Mode::On => 3,
        }
    }

    /// The name of the mode.
    pub fn to_text(&self) -> (r: String)
        ensures
            r@ == match *self {
                Mode::Auto => "Auto"@,
                Mode::Off => "Off"@,
                Mode::On => "On"@,
            },
    {
        match self {
            Mode::Auto => String::from_str("Auto"),
            Mode::Off => String::from_str("Off"),
            Mode::On => String::from_str("On"),
        }
    }
}

impl From<u8> for Mode {
    /// The mode that a byte stands for; a byte that stands for none gives
    /// `Auto`.
    fn from(value: u8) -> (r: Mode) {
        if value == 1 {
            Mode::Auto
        } else if value == 2 {
            Mode::Off
        } else if value == 3 {
            Mode::On
        } else {
            Mode::Auto
        }
    }
}

impl vstd::std_specs::convert::FromSpecImpl<u8> for Mode {
    open spec fn obeys_from_spec() -> bool {
        true
    }

    open spec fn from_spec(value: u8) -> Mode {
        Mode::of_code(value)
    }
}

impl ChangeMode {
    /// A request for the given mode, or for the next mode where none is given.
    pub fn new(mode: Option<Mode>) -> (r: ChangeMode)
        ensures
            r.mode == mode,
    {
        ChangeMode { mode }
    }
}

impl Default for ChangeMode {
    /// A request for the next mode.
    fn default() -> (r: ChangeMode)
        ensures
            r.mode.is_none(),
    {
        ChangeMode::new(None)
    }
}

/// Every mode is found again from its byte.
pub proof fn lemma_mode_code_round_trip(mode: Mode)
    ensures
        Mode::of_code(mode.code()) == mode,
        1 <= mode.code() <= 3,
{
}

/// Following the cycle from any mode passes through the two other modes and
/// comes back after exactly three steps: Auto, Off, On, Auto. No step stays
/// where it is, and none skips a mode.
pub proof fn lemma_mode_cycle(mode: Mode)
    ensures
        Mode::Auto.next() == Mode::Off,
        Mode::Off.next() == Mode::On,
        Mode::On.next() == Mode::Auto,
        mode.next() != mode,
        mode.next().next() != mode,
        mode.next().next() != mode.next(),
        mode.next().next().next() == mode,
{
}

} // verus!
