use ps2::flags::{ControllerConfig, ControllerInput, ControllerOutput, KeyboardLeds, MouseMovement};

#[test]
fn undefined_bits_test() {
    // Undefined bits in config byte and input port default to 0
    assert_eq!(ControllerConfig::all().bits(), 0b01110111);
    assert_eq!(ControllerInput::all().bits(), 0b11110011);
}

#[test]
fn handles_all_zeroes_test() {
    assert_eq!(
        (
            ControllerConfig::from_bits_truncate(0).bits(),
            ControllerInput::from_bits_truncate(0).bits(),
            ControllerOutput::from_bits_truncate(0).bits()
        ),
        (0, 0, 0)
    );
}

#[test]
fn truncation_drops_undefined_bits() {
    assert_eq!(ControllerConfig::from_bits_truncate(0xff).bits(), 0b0111_0111);
    assert_eq!(ControllerInput::from_bits_truncate(0xff).bits(), 0b1111_0011);
    assert_eq!(KeyboardLeds::from_bits_truncate(0xff).bits(), 0b111);
    assert_eq!(MouseMovement::from_bits_truncate(0x08).bits(), 0);
}

#[test]
fn set_and_contains() {
    let mut config = ControllerConfig::empty();
    config.set(ControllerConfig::DISABLE_MOUSE | ControllerConfig::ENABLE_TRANSLATE, true);
    assert!(config.contains(ControllerConfig::DISABLE_MOUSE));
    assert!(config.contains(ControllerConfig::ENABLE_TRANSLATE));
    assert!(!config.contains(ControllerConfig::DISABLE_KEYBOARD));
    config.set(ControllerConfig::ENABLE_TRANSLATE, false);
    assert_eq!(config.bits(), ControllerConfig::DISABLE_MOUSE);
    // Setting an undefined bit leaves it clear.
    config.set(0b1000_0000, true);
    assert_eq!(config.bits(), ControllerConfig::DISABLE_MOUSE);
}
