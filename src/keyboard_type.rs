//! Identification of keyboards.
use vstd::prelude::*;

verus! {

/// The kind of a keyboard, as its identification bytes tell it.
#[derive(Clone, Copy, Debug, PartialEq, Eq)]
pub enum KeyboardType {
    /// Does not acknowledge the identify command.
    XT,
    /// Acknowledges the identify command and sends no identification byte.
    ATWithTranslation,
    MF2,
    MF2WithTranslation,
    ThinkPad,
    ThinkPadWithTranslation,
    Unknown122Key,
    IBM1390876,
    NetworkComputingDevicesN97,
    NetworkComputingDevicesSunLayout,
    OldJapaneseG,
    OldJapaneseP,
    OldJapaneseA,
    /// An identification pair missing from the table, as it came.
    Unknown(u8, u8),
}

/// The keyboard that answers the identify command with `first`, then `second`.
pub open spec fn keyboard_type_of(first: u8, second: u8) -> KeyboardType {
    if first == 0xab && second == 0x83 {
        KeyboardType::MF2
    } else if first == 0xab && (second == 0x41 || second == 0xc1) {
        KeyboardType::MF2WithTranslation
    } else if first == 0xab && second == 0x84 {
        KeyboardType::ThinkPad
    } else if first == 0xab && second == 0x54 {
        KeyboardType::ThinkPadWithTranslation
    } else if first == 0xab && second == 0x86 {
        KeyboardType::Unknown122Key
    } else if first == 0xbf && second == 0xbf {
        KeyboardType::IBM1390876
    } else if first == 0xab && second == 0x85 {
        KeyboardType::NetworkComputingDevicesN97
    } else if first == 0xac && second == 0xa1 {
        KeyboardType::NetworkComputingDevicesSunLayout
    } else if first == 0xab && second == 0x90 {
        KeyboardType::OldJapaneseG
    } else if first == 0xab && second == 0x91 {
        KeyboardType::OldJapaneseP
    } else if first == 0xab && second == 0x92 {
        KeyboardType::OldJapaneseA
    } else {
        KeyboardType::Unknown(first, second)
    }
}

impl From<(u8, u8)> for KeyboardType {
    fn from(pair: (u8, u8)) -> (r: Self) {
        match pair {
            (0xab, 0x83) => KeyboardType::MF2,
            (0xab, 0x41) | (0xab, 0xc1) => KeyboardType::MF2WithTranslation,
            (0xab, 0x84) => KeyboardType::ThinkPad,
            (0xab, 0x54) => KeyboardType::ThinkPadWithTranslation,
            (0xab, 0x86) => KeyboardType::Unknown122Key,
            (0xbf, 0xbf) => KeyboardType::IBM1390876,
            (0xab, 0x85) => KeyboardType::NetworkComputingDevicesN97,
            (0xac, 0xa1) => KeyboardType::NetworkComputingDevicesSunLayout,
            (0xab, 0x90) => KeyboardType::OldJapaneseG,
            (0xab, 0x91) => KeyboardType::OldJapaneseP,
            (0xab, 0x92) => KeyboardType::OldJapaneseA,
            (first, second) => KeyboardType::Unknown(first, second),
        }
    }
}

impl vstd::std_specs::convert::FromSpecImpl<(u8, u8)> for KeyboardType {
    open spec fn obeys_from_spec() -> bool {
        true
    }

    open spec fn from_spec(pair: (u8, u8)) -> Self {
        keyboard_type_of(pair.0, pair.1)
    }
}

} // verus!
