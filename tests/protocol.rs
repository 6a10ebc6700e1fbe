use std::cell::RefCell;
use std::collections::VecDeque;
use std::rc::Rc;

use ps2::error::{ControllerError, KeyboardError, MouseError};
use ps2::flags::{ControllerConfig, KeyboardLeds, MouseMovement, MouseStatus};
use ps2::port::{RegisterPort, COMMAND_REGISTER, DATA_REGISTER, STATUS_INPUT_FULL, STATUS_OUTPUT_FULL};
use ps2::response::Response;
use ps2::{Controller, KeyboardType, MouseResolution, MouseType};

/// What a simulated controller has been sent, and what it will answer.
#[derive(Default)]
struct Bus {
    replies: VecDeque<u8>,
    writes: Vec<(u16, u8)>,
    refuse_input: bool,
    status_reads: usize,
}

/// A simulated controller: its output buffer holds the queued replies, and
/// its input buffer takes every write at once, unless told to refuse input.
#[derive(Clone, Default)]
struct Simulated(Rc<RefCell<Bus>>);

impl Simulated {
    fn with_replies(replies: &[u8]) -> Self {
        let sim = Simulated::default();
        sim.0.borrow_mut().replies.extend(replies.iter().copied());
        sim
    }

    fn writes(&self) -> Vec<(u16, u8)> {
        self.0.borrow().writes.clone()
    }

    fn pending(&self) -> usize {
        self.0.borrow().replies.len()
    }
}

impl RegisterPort for Simulated {
    fn read_byte(&mut self, address: u16) -> u8 {
        let mut bus = self.0.borrow_mut();
        if address == COMMAND_REGISTER {
            bus.status_reads += 1;
            let mut status = 0;
            if !bus.replies.is_empty() {
                status |= STATUS_OUTPUT_FULL;
            }
            if bus.refuse_input {
                status |= STATUS_INPUT_FULL;
            }
            status
        } else {
            bus.replies.pop_front().unwrap_or(0)
        }
    }

    fn write_byte(&mut self, address: u16, value: u8) {
        self.0.borrow_mut().writes.push((address, value));
    }
}

fn controller(sim: &Simulated) -> Controller<Simulated> {
    Controller::with_timeout(sim.clone(), 8)
}

const C: u16 = COMMAND_REGISTER;
const D: u16 = DATA_REGISTER;
const ACK: u8 = 0xfa;

#[test]
fn internal_ram_address_is_masked() {
    let sim = Simulated::with_replies(&[0x42]);
    let mut c = controller(&sim);
    assert_eq!(c.read_internal_ram(0x25), Ok(0x42));
    assert_eq!(c.write_internal_ram(33, 0x99), Ok(()));
    assert_eq!(c.read_internal_ram(0xff), Err(ControllerError::Timeout));
    assert_eq!(sim.writes(), vec![(C, 0x25), (C, 0x61), (D, 0x99), (C, 0x3f)]);
}

#[test]
fn config_round_trip() {
    let sim = Simulated::default();
    let mut c = controller(&sim);
    let mut config = ControllerConfig::from_bits_truncate(0xff);
    assert_eq!(config.bits(), 0b0111_0111);
    config.set(ControllerConfig::ENABLE_TRANSLATE, false);
    assert_eq!(c.write_config(config), Ok(()));
    assert_eq!(sim.writes(), vec![(C, 0x60), (D, 0b0011_0111)]);
    // The simulated controller answers with the byte written, undefined bits set too.
    sim.0.borrow_mut().replies.push_back(0b1011_1111);
    let read_back = c.read_config().unwrap();
    assert_eq!(read_back.bits(), 0b0011_0111);
    assert_eq!(read_back, config);
    assert_eq!(sim.writes()[2], (C, 0x20));
}

#[test]
fn controller_self_test_passes_only_on_0x55() {
    let sim = Simulated::with_replies(&[0x55, 0x54, 0x00]);
    let mut c = controller(&sim);
    assert_eq!(c.test_controller(), Ok(()));
    assert_eq!(c.test_controller(), Err(ControllerError::TestFailed { response: 0x54 }));
    assert_eq!(c.test_controller(), Err(ControllerError::TestFailed { response: 0x00 }));
    assert_eq!(c.test_controller(), Err(ControllerError::Timeout));
    assert_eq!(sim.writes(), vec![(C, 0xaa); 4]);
}

#[test]
fn interface_tests_pass_on_zero() {
    let sim = Simulated::with_replies(&[0x00, 0x01, 0x00, 0x03]);
    let mut c = controller(&sim);
    assert_eq!(c.test_keyboard(), Ok(()));
    assert_eq!(c.test_keyboard(), Err(ControllerError::TestFailed { response: 0x01 }));
    assert_eq!(c.test_mouse(), Ok(()));
    assert_eq!(c.test_mouse(), Err(ControllerError::TestFailed { response: 0x03 }));
    assert_eq!(sim.writes(), vec![(C, 0xab), (C, 0xab), (C, 0xa9), (C, 0xa9)]);
}

#[test]
fn timeout_and_would_block() {
    let sim = Simulated::default();
    let mut c = controller(&sim);
    assert_eq!(c.read_data(), Err(ControllerError::Timeout));
    c.set_non_blocking(true);
    assert_eq!(c.read_data(), Err(ControllerError::WouldBlock));
    sim.0.borrow_mut().replies.push_back(7);
    assert_eq!(c.read_data(), Ok(7));
    sim.0.borrow_mut().refuse_input = true;
    assert_eq!(c.write_data(1), Err(ControllerError::Timeout));
    assert_eq!(c.enable_keyboard(), Err(ControllerError::Timeout));
    assert!(sim.writes().is_empty());
}

#[test]
fn zero_timeout_gives_up_at_once() {
    let sim = Simulated::with_replies(&[1]);
    let mut c = Controller::with_timeout(sim.clone(), 0);
    assert_eq!(c.read_data(), Err(ControllerError::Timeout));
    assert_eq!(sim.pending(), 1);
}

#[test]
fn status_register_reads() {
    let sim = Simulated::with_replies(&[9]);
    let mut c = Controller::new(sim.clone());
    let status = c.read_status();
    assert_eq!(status.bits(), STATUS_OUTPUT_FULL);
}

#[test]
fn port_commands() {
    let sim = Simulated::with_replies(&[0xff, 0x03, 0x11]);
    let mut c = controller(&sim);
    assert_eq!(c.read_input_port().unwrap().bits(), 0b1111_0011);
    assert_eq!(c.read_output_port().unwrap().bits(), 0x03);
    assert_eq!(c.read_test_port(), Ok(0x11));
    let output = ps2::flags::ControllerOutput::from_bits_truncate(0x03);
    assert_eq!(c.write_output_port(output), Ok(()));
    assert_eq!(c.write_keyboard_buffer(0x1c), Ok(()));
    assert_eq!(c.write_mouse_buffer(0x08), Ok(()));
    assert_eq!(c.write_mouse(0xf4), Ok(()));
    assert_eq!(c.disable_mouse(), Ok(()));
    assert_eq!(c.enable_mouse(), Ok(()));
    assert_eq!(c.disable_keyboard(), Ok(()));
    assert_eq!(c.enable_keyboard(), Ok(()));
    assert_eq!(c.write_input_low_nibble_to_status(), Ok(()));
    assert_eq!(c.write_input_high_nibble_to_status(), Ok(()));
    assert_eq!(
        sim.writes(),
        vec![
            (C, 0xc0),
            (C, 0xd0),
            (C, 0xe0),
            (C, 0xd1),
            (D, 0x03),
            (C, 0xd2),
            (D, 0x1c),
            (C, 0xd3),
            (D, 0x08),
            (C, 0xd4),
            (D, 0xf4),
            (C, 0xa7),
            (C, 0xa8),
            (C, 0xad),
            (C, 0xae),
            (C, 0xc1),
            (C, 0xc2),
        ]
    );
}

#[test]
fn pulse_keeps_high_nibble_set() {
    let sim = Simulated::default();
    let mut c = controller(&sim);
    assert_eq!(c.pulse_output_low_nibble(0x01), Ok(()));
    assert_eq!(c.pulse_output_low_nibble(0x3e), Ok(()));
    assert_eq!(sim.writes(), vec![(C, 0xf1), (C, 0xfe)]);
}

#[test]
fn diagnostic_dump_reads_every_ram_byte() {
    let bytes: Vec<u8> = (0..32).map(|i| i * 3).collect();
    let sim = Simulated::with_replies(&bytes);
    let mut c = controller(&sim);
    let dump = c.diagnostic_dump().unwrap();
    assert_eq!(dump.to_vec(), bytes);
    assert_eq!(sim.writes(), vec![(C, 0xac)]);
    let sim = Simulated::with_replies(&bytes[..31]);
    let mut c = controller(&sim);
    assert_eq!(c.diagnostic_dump(), Err(ControllerError::Timeout));
}

#[test]
fn keyboard_commands_are_acknowledged() {
    let sim = Simulated::with_replies(&[ACK, ACK, ACK, ACK, ACK]);
    let mut c = controller(&sim);
    let leds = KeyboardLeds::from_bits_truncate(KeyboardLeds::CAPS_LOCK | KeyboardLeds::NUM_LOCK);
    assert_eq!(c.keyboard().set_leds(leds), Ok(()));
    assert_eq!(c.keyboard().enable_scanning(), Ok(()));
    assert_eq!(c.keyboard().set_key_make_only(0x1c), Ok(()));
    assert_eq!(sim.writes(), vec![(D, 0xed), (D, 0b110), (D, 0xf4), (D, 0xfd), (D, 0x1c)]);
}

#[test]
fn keyboard_reply_errors() {
    let sim = Simulated::with_replies(&[0xfe, 0x00, 0xff, 0x12, ACK, 0xfe]);
    let mut c = controller(&sim);
    let mut k = c.keyboard();
    assert_eq!(k.set_defaults(), Err(KeyboardError::Resend));
    assert_eq!(k.set_defaults(), Err(KeyboardError::KeyDetectionError));
    assert_eq!(k.set_defaults(), Err(KeyboardError::KeyDetectionError));
    assert_eq!(k.set_defaults(), Err(KeyboardError::InvalidResponse(0x12)));
    // The argument is sent once the command is acknowledged.
    assert_eq!(k.set_scancode_set(2), Err(KeyboardError::Resend));
    assert_eq!(k.disable_scanning(), Err(KeyboardError::ControllerError(ControllerError::Timeout)));
    assert_eq!(
        sim.writes(),
        vec![(D, 0xf6), (D, 0xf6), (D, 0xf6), (D, 0xf6), (D, 0xf0), (D, 2), (D, 0xf5)]
    );
}

#[test]
fn typematic_encoding() {
    let sim = Simulated::with_replies(&[ACK, ACK, ACK, ACK, ACK, ACK]);
    let mut c = controller(&sim);
    assert_eq!(c.keyboard().set_typematic_rate_and_delay(30_000, 250), Ok(()));
    assert_eq!(c.keyboard().set_typematic_rate_and_delay(2_000, 1000), Ok(()));
    assert_eq!(c.keyboard().set_typematic_rate_and_delay(10_900, 500), Ok(()));
    assert_eq!(
        sim.writes(),
        vec![(D, 0xf3), (D, 0b0000_0000), (D, 0xf3), (D, 0b0111_1111), (D, 0xf3), (D, 0b0011_0101)]
    );
}

#[test]
fn typematic_rejects_out_of_range_values() {
    let sim = Simulated::with_replies(&[ACK, ACK]);
    let mut c = controller(&sim);
    let mut k = c.keyboard();
    assert_eq!(
        k.set_typematic_rate_and_delay(1_999, 250),
        Err(KeyboardError::InvalidTypematicFrequency(1_999))
    );
    assert_eq!(
        k.set_typematic_rate_and_delay(30_001, 250),
        Err(KeyboardError::InvalidTypematicFrequency(30_001))
    );
    assert_eq!(k.set_typematic_rate_and_delay(10_000, 300), Err(KeyboardError::InvalidTypematicDelay(300)));
    assert!(sim.writes().is_empty());
    assert_eq!(sim.pending(), 2);
}

#[test]
fn keyboard_identification() {
    // An XT keyboard asks for the identify command again.
    let sim = Simulated::with_replies(&[0xfe, 0xab]);
    let mut c = controller(&sim);
    assert_eq!(c.keyboard().get_keyboard_type(), Ok(KeyboardType::XT));
    assert_eq!(sim.pending(), 1);
    // An AT keyboard sends nothing after the acknowledgement.
    let sim = Simulated::with_replies(&[ACK]);
    let mut c = controller(&sim);
    assert_eq!(c.keyboard().get_keyboard_type(), Ok(KeyboardType::ATWithTranslation));
    let sim = Simulated::with_replies(&[ACK, 0xab, 0x83]);
    let mut c = controller(&sim);
    assert_eq!(c.keyboard().get_keyboard_type(), Ok(KeyboardType::MF2));
    let sim = Simulated::with_replies(&[ACK, 0x12, 0x34]);
    let mut c = controller(&sim);
    assert_eq!(c.keyboard().get_keyboard_type(), Ok(KeyboardType::Unknown(0x12, 0x34)));
    let sim = Simulated::with_replies(&[ACK, 0xab]);
    let mut c = controller(&sim);
    assert_eq!(
        c.keyboard().get_keyboard_type(),
        Err(KeyboardError::ControllerError(ControllerError::Timeout))
    );
    assert_eq!(sim.writes(), vec![(D, 0xf2)]);
}

#[test]
fn keyboard_scancode_set_echo_and_resend() {
    let sim = Simulated::with_replies(&[ACK, ACK, 2, 0xee, 0x55, 0x1c, 0xfe]);
    let mut c = controller(&sim);
    let mut k = c.keyboard();
    assert_eq!(k.get_scancode_set(), Ok(2));
    assert_eq!(k.echo(), Ok(()));
    assert_eq!(k.echo(), Err(KeyboardError::InvalidResponse(0x55)));
    assert_eq!(k.resend_last_byte(), Ok(0x1c));
    assert_eq!(k.resend_last_byte(), Err(KeyboardError::Resend));
    assert_eq!(
        sim.writes(),
        vec![(D, 0xf0), (D, 0), (D, 0xee), (D, 0xee), (D, 0xfe), (D, 0xfe)]
    );
}

#[test]
fn keyboard_reset() {
    let sim = Simulated::with_replies(&[ACK, 0xaa, ACK, 0xfc, ACK, 0xfe, ACK, 0x31]);
    let mut c = controller(&sim);
    let mut k = c.keyboard();
    assert_eq!(k.reset_and_self_test(), Ok(()));
    assert_eq!(k.reset_and_self_test(), Err(KeyboardError::SelfTestFailed));
    assert_eq!(k.reset_and_self_test(), Err(KeyboardError::Resend));
    assert_eq!(k.reset_and_self_test(), Err(KeyboardError::InvalidResponse(0x31)));
}

#[test]
fn mouse_commands_are_routed() {
    let sim = Simulated::with_replies(&[ACK, ACK, ACK]);
    let mut c = controller(&sim);
    assert_eq!(c.mouse().set_sample_rate(100), Ok(()));
    assert_eq!(c.mouse().enable_data_reporting(), Ok(()));
    assert_eq!(c.mouse().set_remote_mode(), Err(MouseError::ControllerError(ControllerError::Timeout)));
    assert_eq!(
        sim.writes(),
        vec![(C, 0xd4), (D, 0xf3), (D, 100), (C, 0xd4), (D, 0xf4), (C, 0xd4), (D, 0xf0)]
    );
}

#[test]
fn mouse_rejects_values_outside_tables() {
    let sim = Simulated::with_replies(&[ACK, ACK]);
    let mut c = controller(&sim);
    assert_eq!(c.mouse().set_resolution(5), Err(MouseError::InvalidResolution(5)));
    assert_eq!(c.mouse().set_resolution(0), Err(MouseError::InvalidResolution(0)));
    assert_eq!(c.mouse().set_sample_rate(15), Err(MouseError::InvalidSampleRate(15)));
    assert!(sim.writes().is_empty());
    assert_eq!(c.mouse().set_resolution(4), Ok(()));
    assert_eq!(sim.writes(), vec![(C, 0xd4), (D, 0xe8), (D, 2)]);
}

#[test]
fn mouse_reply_errors() {
    let sim = Simulated::with_replies(&[0xfe, 0x42]);
    let mut c = controller(&sim);
    assert_eq!(c.mouse().set_defaults(), Err(MouseError::Resend));
    assert_eq!(c.mouse().set_stream_mode(), Err(MouseError::InvalidResponse(0x42)));
}

#[test]
fn mouse_packet_sign_extension() {
    let sim = Simulated::with_replies(&[0b0001_0000, 0xff, 0x01]);
    let mut c = controller(&sim);
    let (flags, x, y) = c.mouse().read_data_packet().unwrap();
    assert_eq!((x, y), (-1, 1));
    assert!(flags.contains(MouseMovement::X_SIGN_BIT));
    assert!(sim.writes().is_empty());
    let sim = Simulated::with_replies(&[ACK, 0b0010_1001, 0xff, 0x80]);
    let mut c = controller(&sim);
    let (flags, x, y) = c.mouse().request_data_packet().unwrap();
    assert_eq!((x, y), (255, -128));
    assert_eq!(flags.bits(), 0b0010_0001);
    assert_eq!(sim.writes(), vec![(C, 0xd4), (D, 0xeb)]);
}

#[test]
fn mouse_status_packet() {
    let sim = Simulated::with_replies(&[ACK, 0xff, 2, 100, ACK, 0x20, 4, 100, ACK, 0, 3, 15]);
    let mut c = controller(&sim);
    let (status, resolution, rate) = c.mouse().get_status_packet().unwrap();
    assert_eq!(status.bits(), MouseStatus::ALL);
    assert_eq!((resolution, rate), (2, 100));
    assert_eq!(c.mouse().get_status_packet(), Err(MouseError::InvalidResolution(4)));
    assert_eq!(c.mouse().get_status_packet(), Err(MouseError::InvalidSampleRate(15)));
}

#[test]
fn mouse_identification_and_reset() {
    let sim = Simulated::with_replies(&[ACK, 0x03, ACK, 0xaa, 0x00, ACK, 0xfc, 0x00, ACK, 0x07]);
    let mut c = controller(&sim);
    assert_eq!(c.mouse().get_mouse_type(), Ok(MouseType::IntelliMouse));
    assert_eq!(c.mouse().reset_and_self_test(), Ok(()));
    // The identifier byte is read even when the test failed.
    assert_eq!(c.mouse().reset_and_self_test(), Err(MouseError::SelfTestFailed));
    assert_eq!(sim.pending(), 2);
    assert_eq!(
        c.mouse().reset_and_self_test(),
        Err(MouseError::ControllerError(ControllerError::Timeout))
    );
    assert_eq!(sim.pending(), 0);
}

#[test]
fn mouse_resend_reads_nothing() {
    let sim = Simulated::with_replies(&[0x08]);
    let mut c = controller(&sim);
    assert_eq!(c.mouse().resend_last_packet(), Ok(()));
    assert_eq!(sim.pending(), 1);
    assert_eq!(sim.writes(), vec![(C, 0xd4), (D, 0xfe)]);
}

#[test]
fn identification_tables() {
    assert_eq!(KeyboardType::from((0xab, 0x83)), KeyboardType::MF2);
    assert_eq!(KeyboardType::from((0xab, 0xc1)), KeyboardType::MF2WithTranslation);
    assert_eq!(KeyboardType::from((0xbf, 0xbf)), KeyboardType::IBM1390876);
    assert_eq!(KeyboardType::from((0xac, 0xa1)), KeyboardType::NetworkComputingDevicesSunLayout);
    assert_eq!(KeyboardType::from((0xab, 0x00)), KeyboardType::Unknown(0xab, 0x00));
    assert_eq!(MouseType::from(0), MouseType::Standard);
    assert_eq!(MouseType::from(4), MouseType::IntelliMouseExplorer);
    assert_eq!(MouseType::from(8), MouseType::Typhoon);
    assert_eq!(MouseType::from(9), MouseType::Unknown(9));
    assert_eq!(MouseResolution::try_from(3), Ok(MouseResolution::EightCountPerMM));
    assert_eq!(MouseResolution::try_from(4), Err(MouseError::InvalidResolution(4)));
}

#[test]
fn response_bytes() {
    assert_eq!(Response::from(0xfa), Response::Acknowledged);
    assert_eq!(Response::from(0xaa), Response::SelfTestPassed);
    assert_eq!(Response::from(0xfe), Response::Resend);
    assert_eq!(Response::from(0x00), Response::BufferOverrun);
    assert_eq!(Response::from(0x1c), Response::Scancode(0x1c));
}

#[test]
fn controller_errors_convert() {
    assert_eq!(
        KeyboardError::from(ControllerError::WouldBlock),
        KeyboardError::ControllerError(ControllerError::WouldBlock)
    );
    assert_eq!(
        MouseError::from(ControllerError::Timeout),
        MouseError::ControllerError(ControllerError::Timeout)
    );
}

#[test]
fn waits_give_up_after_the_timeout() {
    let sim = Simulated::default();
    let mut c = controller(&sim);
    assert_eq!(c.read_data(), Err(ControllerError::Timeout));
    assert_eq!(sim.0.borrow().status_reads, 8);
    c.set_non_blocking(true);
    assert_eq!(c.read_data(), Err(ControllerError::WouldBlock));
    assert_eq!(sim.0.borrow().status_reads, 9);
    sim.0.borrow_mut().refuse_input = true;
    assert_eq!(c.test_controller(), Err(ControllerError::Timeout));
    assert_eq!(sim.0.borrow().status_reads, 17);
    // A wait stops at the first poll that shows the register ready.
    sim.0.borrow_mut().refuse_input = false;
    sim.0.borrow_mut().replies.push_back(0x55);
    assert_eq!(c.test_controller(), Ok(()));
    assert_eq!(sim.0.borrow().status_reads, 19);
}
