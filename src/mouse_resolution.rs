//! The resolutions a mouse can report at.
use vstd::prelude::*;

use crate::error::MouseError;

verus! {

/// A mouse resolution, in counts per millimetre; its code is its index in the
/// table of resolutions.
#[derive(Clone, Copy, Debug, PartialEq, Eq)]
pub enum MouseResolution {
    OneCountPerMM,
    TwoCountPerMM,
    FourCountPerMM,
    EightCountPerMM,
}

/// The resolution with code `value`, if there is one.
pub open spec fn resolution_of(value: u8) -> Result<MouseResolution, MouseError> {
    if value == 0 {
        Ok(MouseResolution::OneCountPerMM)
    } else if value == 1 {
        Ok(MouseResolution::TwoCountPerMM)
    } else if value == 2 {
        Ok(MouseResolution::FourCountPerMM)
    } else if value == 3 {
        Ok(MouseResolution::EightCountPerMM)
    } else {
        Err(MouseError::InvalidResolution(value))
    }
}

impl TryFrom<u8> for MouseResolution {
    type Error = MouseError;

    fn try_from(value: u8) -> (r: Result<Self, MouseError>) {
        match value {
            0x00 => Ok(MouseResolution::OneCountPerMM),
            0x01 => Ok(MouseResolution::TwoCountPerMM),
            0x02 => Ok(MouseResolution::FourCountPerMM),
            0x03 => Ok(MouseResolution::EightCountPerMM),
            other => Err(MouseError::InvalidResolution(other)),
        }
    }
}

impl vstd::std_specs::convert::TryFromSpecImpl<u8> for MouseResolution {
    open spec fn obeys_try_from_spec() -> bool {
        true
    }

    open spec fn try_from_spec(value: u8) -> Result<Self, MouseError> {
        resolution_of(value)
    }
}

} // verus!
