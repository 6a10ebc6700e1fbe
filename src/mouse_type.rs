//! Identification of mice.
use vstd::prelude::*;

verus! {

/// The kind of a mouse, as its identification byte tells it.
#[derive(Clone, Copy, Debug, PartialEq, Eq)]
pub enum MouseType {
    Standard,
    IntelliMouse,
    IntelliMouseExplorer,
    Typhoon,
    /// An identification byte missing from the table, as it came.
    Unknown(u8),
}

/// The mouse that answers the identify command with `id`.
pub open spec fn mouse_type_of(id: u8) -> MouseType {
    if id == 0x00 {
        MouseType::Standard
    } else if id == 0x03 {
        MouseType::IntelliMouse
    } else if id == 0x04 {
        MouseType::IntelliMouseExplorer
    } else if id == 0x08 {
        MouseType::Typhoon
    } else {
        MouseType::Unknown(id)
    }
}

impl From<u8> for MouseType {
    fn from(value: u8) -> (r: Self) {
        match value {
            0x00 => MouseType::Standard,
            0x03 => MouseType::IntelliMouse,
            0x04 => MouseType::IntelliMouseExplorer,
            0x08 => MouseType::Typhoon,
            other => MouseType::Unknown(other),
        }
    }
}

impl vstd::std_specs::convert::FromSpecImpl<u8> for MouseType {
    open spec fn obeys_from_spec() -> bool {
        true
    }

    open spec fn from_spec(value: u8) -> Self {
        mouse_type_of(value)
    }
}

} // verus!
