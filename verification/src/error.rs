use vstd::prelude::*;

verus! {

/// What can go wrong in the node.
///
/// Only the first kind arises inside this crate. The other two are raised by
/// whoever drives the pixel's data line or sends the lamp its commands; they
/// are listed here so that one type names every way the control loop can end.
#[derive(Clone, Copy, Debug, PartialEq, Eq, Structural)]
pub enum Error {
    /// A hue above 360, or a saturation or value above 100.
    InvalidColorInput,
    /// The transmitter could not clock a frame out.
    PeripheralError,
    /// The command for the lamp could not be sent.
    TransportError,
}

/// A short description of an error, for a log line or a panic message.
pub open spec fn message_of(error: Error) -> Seq<char> {
    match error {
        Error::InvalidColorInput => "Invalid HSV values"@,
        Error::PeripheralError => "the LED transmitter failed"@,
        Error::TransportError => "the command could not be sent"@,
    }
}

impl Error {
    /// A short description of the error.
    pub fn message(&self) -> (text: &'static str)
        ensures
            text@ == message_of(*self),
    {
        match self {
            Error::InvalidColorInput => "Invalid HSV values",
            Error::PeripheralError => "the LED transmitter failed",
            Error::TransportError => "the command could not be sent",
        }
    }
}

} // verus!
