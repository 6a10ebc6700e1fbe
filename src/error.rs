//! Failures of the controller and of the devices behind it.
use vstd::prelude::*;

verus! {

/// A failure at the register level.
#[derive(Clone, Copy, Debug, PartialEq, Eq)]
pub enum ControllerError {
    /// In non-blocking mode, no byte was waiting to be read.
    WouldBlock,
    /// The status register did not become ready within the configured number of polls.
    Timeout,
    /// A self-test answered with a byte other than the one that means success.
    TestFailed { response: u8 },
}

/// A failure of a keyboard command.
#[derive(Clone, Copy, Debug, PartialEq, Eq)]
pub enum KeyboardError {
    /// The keyboard reported that its buffer overran.
    BufferOverrun,
    /// The keyboard failed its self-test.
    SelfTestFailed,
    /// The keyboard asked for the last byte again.
    Resend,
    /// The keyboard reported a key detection error or a buffer overrun.
    KeyDetectionError,
    /// The keyboard answered with a byte that has no meaning here.
    InvalidResponse(u8),
    /// A typematic rate, in millihertz, outside 2 Hz to 30 Hz.
    InvalidTypematicFrequency(u32),
    /// A typematic delay, in milliseconds, other than 250, 500, 750 or 1000.
    InvalidTypematicDelay(u16),
    /// The controller failed to carry a byte.
    ControllerError(ControllerError),
}

/// A failure of a mouse command.
#[derive(Clone, Copy, Debug, PartialEq, Eq)]
pub enum MouseError {
    /// The mouse failed its self-test.
    SelfTestFailed,
    /// The mouse asked for the last byte again.
    Resend,
    /// The mouse answered with a byte that has no meaning here.
    InvalidResponse(u8),
    /// A resolution code outside the table of resolutions.
    InvalidResolution(u8),
    /// A sample rate outside the table of sample rates.
    InvalidSampleRate(u8),
    /// The controller failed to carry a byte.
    ControllerError(ControllerError),
}

impl From<ControllerError> for KeyboardError {
    fn from(err: ControllerError) -> (r: Self) {
        KeyboardError::ControllerError(err)
    }
}

impl vstd::std_specs::convert::FromSpecImpl<ControllerError> for KeyboardError {
    open spec fn obeys_from_spec() -> bool {
        true
    }

    open spec fn from_spec(err: ControllerError) -> Self {
        KeyboardError::ControllerError(err)
    }
}

impl From<ControllerError> for MouseError {
    fn from(err: ControllerError) -> (r: Self) {
        MouseError::ControllerError(err)
    }
}

impl vstd::std_specs::convert::FromSpecImpl<ControllerError> for MouseError {
    open spec fn obeys_from_spec() -> bool {
        true
    }

    open spec fn from_spec(err: ControllerError) -> Self {
        MouseError::ControllerError(err)
    }
}

} // verus!
