//! The faults that the control logic reports.

use vstd::prelude::*;
use vstd::string::*;

verus! {

/// A fault reported by one of the components. No component stops on one:
/// each is handed to the caller, which logs it and goes on.
#[derive(Clone, Debug, PartialEq, Eq)]
pub enum Error {
    /// A configuration, storage or control-logic fault.
    GeneralFault { msg: String },
    /// An operation that cannot fail reported a failure.
    Infallible,
    /// The display could not be drawn.
    DisplayDraw { msg: String },
    /// The sensor could not be read.
    SensorFault { msg: String },
}

/// The result of an operation that may report a fault.
pub type Result<T> = core::result::Result<T, Error>;

impl Error {
    /// The text shown for this fault: a fixed prefix that names the kind of
    /// fault, followed by the fault's own message where it has one.
    pub open spec fn text(self) -> Seq<char> {
        match self {
            Error::GeneralFault { msg } => "A general fault occurred: "@ + msg@,
            Error::Infallible => "Unexpected infallible error encountered"@,
            Error::DisplayDraw { msg } => "Display draw error: "@ + msg@,
            Error::SensorFault { msg } => "Sensor fault: "@ + msg@,
        }
    }

    /// Renders the fault as text.
    pub fn to_text(&self) -> (r: String)
        ensures
            r@ == self.text(),
    {
        match self {
            Error::GeneralFault { msg } => String::from_str("A general fault occurred: ").concat(
                msg.as_str(),
            ),
            Error::Infallible => String::from_str("Unexpected infallible error encountered"),
            Error::DisplayDraw { msg } => String::from_str("Display draw error: ").concat(
                msg.as_str(),
            ),
            Error::SensorFault { msg } => String::from_str("Sensor fault: ").concat(msg.as_str()),
        }
    }
}

/// A general fault with the given message.
pub fn general_fault(msg: String) -> (e: Error)
    ensures
        e == (Error::GeneralFault { msg }),
{
    Error::GeneralFault { msg }
}

/// A sensor fault with the given message.
pub fn sensor_fault(msg: String) -> (e: Error)
    ensures
        e == (Error::SensorFault { msg }),
{
    Error::SensorFault { msg }
}

/// A display drawing fault with the given message.
pub fn display_draw_err(msg: String) -> (e: Error)
    ensures
        e == (Error::DisplayDraw { msg }),
{
    Error::DisplayDraw { msg }
}

} // verus!
