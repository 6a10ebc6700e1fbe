//! The reserved reply bytes of the devices.
use vstd::prelude::*;

verus! {

/// Reply: the command was acknowledged.
pub const COMMAND_ACKNOWLEDGED: u8 = 0xfa;
/// Reply: the self-test after a reset passed.
pub const SELF_TEST_PASSED: u8 = 0xaa;
/// Reply: the self-test after a reset failed.
pub const SELF_TEST_FAILED: u8 = 0xfc;
/// Reply: send the last byte again.
pub const RESEND: u8 = 0xfe;
/// Reply of a keyboard: its buffer overran.
pub const BUFFER_OVERRUN: u8 = 0x00;
/// Reply of a keyboard to the echo command.
pub const ECHO: u8 = 0xee;
/// Reply of a keyboard: key detection error.
pub const KEY_DETECTION_ERROR: u8 = 0xff;

/// A byte from a device, read as one of the reserved replies when it is one.
#[derive(Clone, Copy, Debug, PartialEq, Eq)]
pub enum Response {
    BufferOverrun,
    SelfTestPassed,
    Echo,
    Acknowledged,
    SelfTestFailed,
    Resend,
    KeyDetectionError,
    /// Any byte that is not a reserved reply.
    Scancode(u8),
}

/// The reading of `byte` as a reply.
pub open spec fn response_of(byte: u8) -> Response {
    if byte == BUFFER_OVERRUN {
        Response::BufferOverrun
    } else if byte == SELF_TEST_PASSED {
        Response::SelfTestPassed
    } else if byte == ECHO {
        Response::Echo
    } else if byte == COMMAND_ACKNOWLEDGED {
        Response::Acknowledged
    } else if byte == SELF_TEST_FAILED {
        Response::SelfTestFailed
    } else if byte == RESEND {
        Response::Resend
    } else if byte == KEY_DETECTION_ERROR {
        Response::KeyDetectionError
    } else {
        Response::Scancode(byte)
    }
}

impl From<u8> for Response {
    fn from(byte: u8) -> (r: Self) {
        match byte {
            BUFFER_OVERRUN => Response::BufferOverrun,
            SELF_TEST_PASSED => Response::SelfTestPassed,
            ECHO => Response::Echo,
            COMMAND_ACKNOWLEDGED => Response::Acknowledged,
            SELF_TEST_FAILED => Response::SelfTestFailed,
            RESEND => Response::Resend,
            KEY_DETECTION_ERROR => Response::KeyDetectionError,
            other => Response::Scancode(other),
        }
    }
}

impl vstd::std_specs::convert::FromSpecImpl<u8> for Response {
    open spec fn obeys_from_spec() -> bool {
        true
    }

    open spec fn from_spec(byte: u8) -> Self {
        response_of(byte)
    }
}

} // verus!
