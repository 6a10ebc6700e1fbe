//! The keyboard protocol: each command is written to the data register and
//! answered by one acknowledgement byte, and so is its argument, if any.
use vstd::prelude::*;

use crate::controller::Controller;
use crate::error::{ControllerError, KeyboardError};
use crate::flags::KeyboardLeds;
use crate::keyboard_type::{keyboard_type_of, KeyboardType};
use crate::port::{exchanged, read_failure, reply, PortEvent, RegisterPort};
use crate::response::{
    BUFFER_OVERRUN, COMMAND_ACKNOWLEDGED, ECHO, KEY_DETECTION_ERROR, RESEND, SELF_TEST_FAILED,
    SELF_TEST_PASSED,
};

verus! {

/// Keyboard opcode: set the LEDs.
pub const SET_LEDS: u8 = 0xed;
/// Keyboard opcode: echo.
pub const ECHO_COMMAND: u8 = 0xee;
/// Keyboard opcode: get (argument 0) or set the scancode set.
pub const GET_OR_SET_SCANCODE: u8 = 0xf0;
/// Keyboard opcode: identify.
pub const IDENTIFY_KEYBOARD: u8 = 0xf2;
/// Keyboard opcode: set the typematic rate and delay.
pub const SET_TYPEMATIC_RATE_AND_DELAY: u8 = 0xf3;
/// Keyboard opcode: enable scanning.
pub const ENABLE_SCANNING: u8 = 0xf4;
/// Keyboard opcode: disable scanning.
pub const DISABLE_SCANNING: u8 = 0xf5;
/// Keyboard opcode: restore the default settings.
pub const SET_DEFAULTS: u8 = 0xf6;
/// Keyboard opcode: all keys typematic only.
pub const SET_ALL_KEYS_TYPEMATIC: u8 = 0xf7;
/// Keyboard opcode: all keys make/break only.
pub const SET_ALL_KEYS_MAKE_BREAK: u8 = 0xf8;
/// Keyboard opcode: all keys make only.
pub const SET_ALL_KEYS_MAKE_ONLY: u8 = 0xf9;
/// Keyboard opcode: all keys typematic and make/break.
pub const SET_ALL_KEYS_TYPEMATIC_AND_MAKE_BREAK: u8 = 0xfa;
/// Keyboard opcode: one key typematic only.
pub const SET_KEY_TYPEMATIC: u8 = 0xfb;
/// Keyboard opcode: one key make/break only.
pub const SET_KEY_MAKE_BREAK: u8 = 0xfc;
/// Keyboard opcode: one key make only.
pub const SET_KEY_MAKE_ONLY: u8 = 0xfd;
/// Keyboard opcode: send the last byte again.
pub const RESEND_LAST_BYTE: u8 = 0xfe;
/// Keyboard opcode: reset and run the self-test.
pub const RESET_AND_SELF_TEST: u8 = 0xff;

/// Lowest typematic rate, in millihertz.
pub const MIN_TYPEMATIC_RATE: u32 = 2_000;
/// Highest typematic rate, in millihertz.
pub const MAX_TYPEMATIC_RATE: u32 = 30_000;

/// What the acknowledgement byte `byte` means.
pub open spec fn acknowledgement(byte: u8) -> Result<(), KeyboardError> {
    if byte == COMMAND_ACKNOWLEDGED {
        Ok(())
    } else if byte == RESEND {
        Err(KeyboardError::Resend)
    } else if byte == BUFFER_OVERRUN || byte == KEY_DETECTION_ERROR {
        Err(KeyboardError::KeyDetectionError)
    } else {
        Err(KeyboardError::InvalidResponse(byte))
    }
}

/// The result of a handshake whose exchange had the outcome `reply`.
pub open spec fn handshake_result(reply: Result<u8, ControllerError>) -> Result<(), KeyboardError> {
    match reply {
        Ok(b) => acknowledgement(b),
        Err(e) => Err(KeyboardError::ControllerError(e)),
    }
}

/// The log after `command`, and `data` if any, were each written and acknowledged.
pub open spec fn acknowledged(before: Seq<PortEvent>, command: u8, data: Option<u8>) -> Seq<PortEvent> {
    let first = before.push(PortEvent::WriteData(command)).push(PortEvent::ReadData(COMMAND_ACKNOWLEDGED));
    match data {
        Some(d) => first.push(PortEvent::WriteData(d)).push(PortEvent::ReadData(COMMAND_ACKNOWLEDGED)),
        None => first,
    }
}

/// The log went from `before` to `after`, with result `r`, as a keyboard command
/// does: `command` is written and its acknowledgement read; once that is a
/// plain acknowledgement, the same for the argument `data`, if any.
pub open spec fn command_cycle(
    before: Seq<PortEvent>,
    after: Seq<PortEvent>,
    command: u8,
    data: Option<u8>,
    non_blocking: bool,
    r: Result<(), KeyboardError>,
) -> bool {
    let sends = seq![PortEvent::WriteData(command)];
    let first = handshake_result(reply(before, sends, after, non_blocking));
    match data {
        None => exchanged(before, sends, after) && r == first,
        Some(d) => {
            let mid = acknowledged(before, command, None);
            ||| (exchanged(before, sends, after) && first is Err && r == first)
            ||| {
                &&& exchanged(mid, seq![PortEvent::WriteData(d)], after)
                &&& r == handshake_result(reply(mid, seq![PortEvent::WriteData(d)], after, non_blocking))
            }
        },
    }
}

/// The transfers of a keyboard command, `true` for a read: the command and its
/// acknowledgement, then the argument and its acknowledgement, if any.
pub open spec fn cycle_plan(data: Option<u8>) -> Seq<bool> {
    match data {
        Some(_) => seq![false, true, false, true],
        None => seq![false, true],
    }
}

/// What the reply `byte` to a reset means.
pub open spec fn self_test_outcome(byte: u8) -> Result<(), KeyboardError> {
    if byte == SELF_TEST_PASSED {
        Ok(())
    } else if byte == SELF_TEST_FAILED {
        Err(KeyboardError::SelfTestFailed)
    } else if byte == RESEND {
        Err(KeyboardError::Resend)
    } else {
        Err(KeyboardError::InvalidResponse(byte))
    }
}

/// The position of `delay_ms` in the table of typematic delays.
pub open spec fn typematic_delay_index(delay_ms: u16) -> Option<u8> {
    if delay_ms == 250 {
        Some(0)
    } else if delay_ms == 500 {
        Some(1)
    } else if delay_ms == 750 {
        Some(2)
    } else if delay_ms == 1000 {
        Some(3)
    } else {
        None
    }
}

/// The rate bits of the typematic byte: `(30 - rate) / (28 / 31)` for a rate
/// in hertz, rounded to the nearest integer, in the low five bits.
pub open spec fn typematic_rate_bits(rate_millihertz: u32) -> u8 {
    ((((MAX_TYPEMATIC_RATE - rate_millihertz) * 31 + 14_000) / 28_000) as u8) & 0x1f
}

/// The typematic byte: the delay index in bits 5 and 6, the rate bits below.
pub open spec fn typematic_byte(rate_millihertz: u32, delay_index: u8) -> u8 {
    (delay_index << 5u8) | typematic_rate_bits(rate_millihertz)
}

/// A PS/2 keyboard, reached through the controller it borrows.
pub struct Keyboard<'c, P: RegisterPort> {
    /// The controller that carries the bytes of this keyboard.
    pub controller: &'c mut Controller<P>,
}

impl<'c, P: RegisterPort> Keyboard<'c, P> {
    pub(crate) fn new(controller: &'c mut Controller<P>) -> (r: Self)
        ensures
            *r.controller == *old(controller),
            *final(controller) == *final(r.controller),
    {
        Keyboard { controller }
    }

    fn check_response(&mut self) -> (r: Result<(), KeyboardError>)
        requires
            old(self).controller.wf(),
        ensures
            final(self).controller.continues(old(self).controller),
            exchanged(old(self).controller.log(), Seq::empty(), final(self).controller.log()),
            r == handshake_result(
                reply(
                    old(self).controller.log(),
                    Seq::empty(),
                    final(self).controller.log(),
                    old(self).controller.non_blocking_mode(),
                ),
            ),
            r matches Err(KeyboardError::ControllerError(_)) ==> final(self).controller.gave_up_in(
                old(self).controller,
                seq![true],
            ),
    {
        let ghost before = self.controller.log();
        proof {
            assert(before + Seq::<PortEvent>::empty() =~= before);
        }
        let response = self.controller.read_data();
        proof {
            if response is Ok {
                assert(self.controller.log().drop_last() =~= before);
            }
        }
        match response {
            Ok(BUFFER_OVERRUN) => Err(KeyboardError::KeyDetectionError),
            Ok(COMMAND_ACKNOWLEDGED) => Ok(()),
            Ok(RESEND) => Err(KeyboardError::Resend),
            Ok(KEY_DETECTION_ERROR) => Err(KeyboardError::KeyDetectionError),
            Ok(other) => Err(KeyboardError::InvalidResponse(other)),
            Err(e) => Err(KeyboardError::ControllerError(e)),
        }
    }

    fn handshake(&mut self, byte: u8) -> (r: Result<(), KeyboardError>)
        requires
            old(self).controller.wf(),
        ensures
            final(self).controller.continues(old(self).controller),
            exchanged(old(self).controller.log(), seq![PortEvent::WriteData(byte)], final(self).controller.log()),
            r == handshake_result(
                reply(
                    old(self).controller.log(),
                    seq![PortEvent::WriteData(byte)],
                    final(self).controller.log(),
                    old(self).controller.non_blocking_mode(),
                ),
            ),
            r matches Err(KeyboardError::ControllerError(_)) ==> final(self).controller.gave_up_in(
                old(self).controller,
                seq![false, true],
            ),
    {
        let ghost before = self.controller.log();
        let ghost sends = seq![PortEvent::WriteData(byte)];
        proof {
            assert(before + sends.take(0) =~= before);
        }
        match self.controller.write_data(byte) {
            Ok(()) => {},
            Err(e) => {
                return Err(KeyboardError::ControllerError(e));
            },
        }
        proof {
            assert(before.push(PortEvent::WriteData(byte)) =~= before + sends);
        }
        self.check_response()
    }

    fn write_command(&mut self, command: u8, data: Option<u8>) -> (r: Result<(), KeyboardError>)
        requires
            old(self).controller.wf(),
        ensures
            final(self).controller.continues(old(self).controller),
            command_cycle(
                old(self).controller.log(),
                final(self).controller.log(),
                command,
                data,
                old(self).controller.non_blocking_mode(),
                r,
            ),
            r matches Err(KeyboardError::ControllerError(_)) ==> final(self).controller.gave_up_in(
                old(self).controller,
                cycle_plan(data),
            ),
    {
        let ghost before = self.controller.log();
        self.handshake(command)?;
        proof {
            let log = self.controller.log();
            assert(log =~= log.drop_last().push(log.last()));
            assert(log =~= acknowledged(before, command, None));
        }
        if let Some(data) = data {
            self.handshake(data)?;
        }
        Ok(())
    }

    /// Sets the LEDs.
    pub fn set_leds(&mut self, leds: KeyboardLeds) -> (r: Result<(), KeyboardError>)
        requires
            old(self).controller.wf(),
        ensures
            final(self).controller.continues(old(self).controller),
            command_cycle(
                old(self).controller.log(),
                final(self).controller.log(),
                SET_LEDS,
                Some(leds@),
                old(self).controller.non_blocking_mode(),
                r,
            ),
            r matches Err(KeyboardError::ControllerError(_)) ==> final(self).controller.gave_up_in(
                old(self).controller,
                cycle_plan(Some(leds@)),
            ),
    {
        self.write_command(SET_LEDS, Some(leds.bits()))
    }

    /// Runs the echo diagnostic: the keyboard answers the echo opcode with the
    /// same byte.
    pub fn echo(&mut self) -> (r: Result<(), KeyboardError>)
        requires
            old(self).controller.wf(),
        ensures
            final(self).controller.continues(old(self).controller),
            exchanged(
                old(self).controller.log(),
                seq![PortEvent::WriteData(ECHO_COMMAND)],
                final(self).controller.log(),
            ),
            r matches Err(KeyboardError::ControllerError(_)) ==> final(self).controller.gave_up_in(
                old(self).controller,
                seq![false, true],
            ),
            r == match reply(
                old(self).controller.log(),
                seq![PortEvent::WriteData(ECHO_COMMAND)],
                final(self).controller.log(),
                old(self).controller.non_blocking_mode(),
            ) {
                Ok(b) => if b == ECHO {
                    Ok(())
                } else if b == RESEND {
                    Err(KeyboardError::Resend)
                } else {
                    Err(KeyboardError::InvalidResponse(b))
                },
                Err(e) => Err(KeyboardError::ControllerError(e)),
            },
    {
        let ghost before = self.controller.log();
        let ghost sends = seq![PortEvent::WriteData(ECHO_COMMAND)];
        proof {
            assert(before + sends.take(0) =~= before);
            assert(before.push(PortEvent::WriteData(ECHO_COMMAND)) =~= before + sends);
        }
        match self.controller.write_data(ECHO_COMMAND) {
            Ok(()) => {},
            Err(e) => {
                return Err(KeyboardError::ControllerError(e));
            },
        }
        let response = self.controller.read_data();
        proof {
            if response is Ok {
                assert(self.controller.log().drop_last() =~= before + sends);
            }
        }
        match response {
            Ok(ECHO) => Ok(()),
            Ok(RESEND) => Err(KeyboardError::Resend),
            Ok(other) => Err(KeyboardError::InvalidResponse(other)),
            Err(e) => Err(KeyboardError::ControllerError(e)),
        }
    }

    /// The number of the scancode set in use (1, 2 or 3): the get/set opcode
    /// with argument 0, then one more byte, which is data and not acknowledged.
    pub fn get_scancode_set(&mut self) -> (r: Result<u8, KeyboardError>)
        requires
            old(self).controller.wf(),
        ensures
            final(self).controller.continues(old(self).controller),
            match r {
                Ok(set) => final(self).controller.log() == acknowledged(
                    old(self).controller.log(),
                    GET_OR_SET_SCANCODE,
                    Some(0),
                ).push(PortEvent::ReadData(set)),
                Err(e) => {
                    ||| command_cycle(
                        old(self).controller.log(),
                        final(self).controller.log(),
                        GET_OR_SET_SCANCODE,
                        Some(0),
                        old(self).controller.non_blocking_mode(),
                        Err(e),
                    )
                    ||| {
                        &&& final(self).controller.log() == acknowledged(
                            old(self).controller.log(),
                            GET_OR_SET_SCANCODE,
                            Some(0),
                        )
                        &&& e == KeyboardError::ControllerError(
                            read_failure(old(self).controller.non_blocking_mode()),
                        )
                    }
                },
            },
            r matches Err(KeyboardError::ControllerError(_)) ==> final(self).controller.gave_up_in(
                old(self).controller,
                seq![false, true, false, true, true],
            ),
    {
        let ghost before = self.controller.log();
        self.write_command(GET_OR_SET_SCANCODE, Some(0))?;
        proof {
            let log = self.controller.log();
            assert(log =~= log.drop_last().push(log.last()));
            assert(log.drop_last() =~= log.drop_last().drop_last().push(log.drop_last().last()));
            assert(log =~= acknowledged(before, GET_OR_SET_SCANCODE, Some(0)));
        }
        match self.controller.read_data() {
            Ok(set) => Ok(set),
            Err(e) => Err(KeyboardError::ControllerError(e)),
        }
    }

    /// Selects the scancode set (1, 2 or 3).
    pub fn set_scancode_set(&mut self, scancode_set: u8) -> (r: Result<(), KeyboardError>)
        requires
            old(self).controller.wf(),
        ensures
            final(self).controller.continues(old(self).controller),
            command_cycle(
                old(self).controller.log(),
                final(self).controller.log(),
                GET_OR_SET_SCANCODE,
                Some(scancode_set),
                old(self).controller.non_blocking_mode(),
                r,
            ),
            r matches Err(KeyboardError::ControllerError(_)) ==> final(self).controller.gave_up_in(
                old(self).controller,
                cycle_plan(Some(scancode_set)),
            ),
    {
        self.write_command(GET_OR_SET_SCANCODE, Some(scancode_set))
    }

    /// Identifies the keyboard.
    ///
    /// A keyboard that asks for the identify opcode again is an XT keyboard, which
    /// never acknowledges it. After an acknowledgement, a keyboard that sends no
    /// byte before the wait times out is an AT keyboard with translation; any
    /// other sends two bytes, looked up in the table of keyboards.
    pub fn get_keyboard_type(&mut self) -> (r: Result<KeyboardType, KeyboardError>)
        requires
            old(self).controller.wf(),
        ensures
            final(self).controller.continues(old(self).controller),
            ({
                let before = old(self).controller.log();
                let after = final(self).controller.log();
                let nb = old(self).controller.non_blocking_mode();
                let acked = acknowledged(before, IDENTIFY_KEYBOARD, None);
                match r {
                    Ok(KeyboardType::XT) => after == before.push(PortEvent::WriteData(IDENTIFY_KEYBOARD)).push(
                        PortEvent::ReadData(RESEND),
                    ),
                    Ok(KeyboardType::ATWithTranslation) => after == acked && !nb,
                    Ok(t) => {
                        &&& after.len() == acked.len() + 2
                        &&& after.take(acked.len() as int) == acked
                        &&& after[acked.len() as int] is ReadData
                        &&& after.last() is ReadData
                        &&& t == keyboard_type_of(
                            after[acked.len() as int]->ReadData_0,
                            after.last()->ReadData_0,
                        )
                    },
                    Err(e) => {
                        ||| (e != KeyboardError::Resend && command_cycle(
                            before,
                            after,
                            IDENTIFY_KEYBOARD,
                            None,
                            nb,
                            Err(e),
                        ))
                        ||| (after == acked && nb && e == KeyboardError::ControllerError(
                            ControllerError::WouldBlock,
                        ))
                        ||| {
                            &&& after.len() == acked.len() + 1
                            &&& after.drop_last() == acked
                            &&& after.last() is ReadData
                            &&& e == KeyboardError::ControllerError(read_failure(nb))
                        }
                    },
                }
            }),
            r matches Err(KeyboardError::ControllerError(_)) || r == Ok::<KeyboardType, KeyboardError>(
                KeyboardType::ATWithTranslation,
            ) ==> final(self).controller.gave_up_in(
                old(self).controller,
                seq![false, true, true, true],
            ),
    {
        let ghost before = self.controller.log();
        // An XT keyboard does not acknowledge this command.
        match self.write_command(IDENTIFY_KEYBOARD, None) {
            Ok(()) => {},
            Err(KeyboardError::Resend) => {
                proof {
                    let log = self.controller.log();
                    assert(log =~= log.drop_last().push(log.last()));
                    assert(log.drop_last() =~= before + seq![PortEvent::WriteData(IDENTIFY_KEYBOARD)]);
                    assert(log =~= before.push(PortEvent::WriteData(IDENTIFY_KEYBOARD)).push(
                        PortEvent::ReadData(RESEND),
                    ));
                }
                return Ok(KeyboardType::XT);
            },
            Err(other) => {
                return Err(other);
            },
        }
        let ghost acked = self.controller.log();
        proof {
            assert(acked =~= acked.drop_last().push(acked.last()));
            assert(acked =~= acknowledged(before, IDENTIFY_KEYBOARD, None));
        }
        // An AT keyboard sends no identification byte.
        match self.controller.read_data() {
            Ok(first_byte) => {
                let ghost first_log = self.controller.log();
                match self.controller.read_data() {
                    Ok(second_byte) => {
                        proof {
                            let log = self.controller.log();
                            assert(log.take(acked.len() as int) =~= acked);
                        }
                        Ok(KeyboardType::from((first_byte, second_byte)))
                    },
                    Err(e) => {
                        proof {
                            assert(first_log.drop_last() =~= acked);
                        }
                        Err(KeyboardError::ControllerError(e))
                    },
                }
            },
            Err(ControllerError::Timeout) => Ok(KeyboardType::ATWithTranslation),
            Err(other) => Err(KeyboardError::ControllerError(other)),
        }
    }

    /// Sets the typematic repeat rate, in millihertz, and the delay before
    /// repetition, in milliseconds.
    ///
    /// The rate must lie in 2 Hz to 30 Hz and the delay be one of 250, 500, 750
    /// and 1000; otherwise nothing is sent and the error names the value. The
    /// byte sent holds the delay index in bits 5 and 6 and the rate bits below.
    pub fn set_typematic_rate_and_delay(
        &mut self,
        rate_millihertz: u32,
        delay_ms: u16,
    ) -> (r: Result<(), KeyboardError>)
        requires
            old(self).controller.wf(),
        ensures
            final(self).controller.continues(old(self).controller),
            !(MIN_TYPEMATIC_RATE <= rate_millihertz <= MAX_TYPEMATIC_RATE) ==> {
                &&& r == Err::<(), KeyboardError>(KeyboardError::InvalidTypematicFrequency(rate_millihertz))
                &&& *final(self).controller == *old(self).controller
            },
            MIN_TYPEMATIC_RATE <= rate_millihertz <= MAX_TYPEMATIC_RATE && typematic_delay_index(delay_ms)
                is None ==> {
                &&& r == Err::<(), KeyboardError>(KeyboardError::InvalidTypematicDelay(delay_ms))
                &&& *final(self).controller == *old(self).controller
            },
            MIN_TYPEMATIC_RATE <= rate_millihertz <= MAX_TYPEMATIC_RATE && typematic_delay_index(delay_ms)
                is Some ==> command_cycle(
                old(self).controller.log(),
                final(self).controller.log(),
                SET_TYPEMATIC_RATE_AND_DELAY,
                Some(typematic_byte(rate_millihertz, typematic_delay_index(delay_ms)->Some_0)),
                old(self).controller.non_blocking_mode(),
                r,
            ),
            r matches Err(KeyboardError::ControllerError(_)) ==> final(self).controller.gave_up_in(
                old(self).controller,
                cycle_plan(Some(0)),
            ),
    {
        if rate_millihertz < MIN_TYPEMATIC_RATE || rate_millihertz > MAX_TYPEMATIC_RATE {
            return Err(KeyboardError::InvalidTypematicFrequency(rate_millihertz));
        }
        let delay_index: u8 = match delay_ms {
            250 => 0,
            500 => 1,
            750 => 2,
            1000 => 3,
            _ => {
                return Err(KeyboardError::InvalidTypematicDelay(delay_ms));
            },
        };
        let scaled: u32 = ((MAX_TYPEMATIC_RATE - rate_millihertz) * 31 + 14_000) / 28_000;
        let rate_bits: u8 = (scaled as u8) & 0x1f;
        self.write_command(SET_TYPEMATIC_RATE_AND_DELAY, Some((delay_index << 5u8) | rate_bits))
    }

    /// Clears the output buffer and the last typematic key, then starts sending scancodes.
    pub fn enable_scanning(&mut self) -> (r: Result<(), KeyboardError>)
        requires
            old(self).controller.wf(),
        ensures
            final(self).controller.continues(old(self).controller),
            command_cycle(
                old(self).controller.log(),
                final(self).controller.log(),
                ENABLE_SCANNING,
                None,
                old(self).controller.non_blocking_mode(),
                r,
            ),
            r matches Err(KeyboardError::ControllerError(_)) ==> final(self).controller.gave_up_in(
                old(self).controller,
                cycle_plan(None),
            ),
    {
        self.write_command(ENABLE_SCANNING, None)
    }

    /// Restores the power-on settings and stops sending scancodes.
    pub fn disable_scanning(&mut self) -> (r: Result<(), KeyboardError>)
        requires
            old(self).controller.wf(),
        ensures
            final(self).controller.continues(old(self).controller),
            command_cycle(
                old(self).controller.log(),
                final(self).controller.log(),
                DISABLE_SCANNING,
                None,
                old(self).controller.non_blocking_mode(),
                r,
            ),
            r matches Err(KeyboardError::ControllerError(_)) ==> final(self).controller.gave_up_in(
                old(self).controller,
                cycle_plan(None),
            ),
    {
        self.write_command(DISABLE_SCANNING, None)
    }

    /// Clears the output buffer and restores the default key settings.
    pub fn set_defaults(&mut self) -> (r: Result<(), KeyboardError>)
        requires
            old(self).controller.wf(),
        ensures
            final(self).controller.continues(old(self).controller),
            command_cycle(
                old(self).controller.log(),
                final(self).controller.log(),
                SET_DEFAULTS,
                None,
                old(self).controller.non_blocking_mode(),
                r,
            ),
            r matches Err(KeyboardError::ControllerError(_)) ==> final(self).controller.gave_up_in(
                old(self).controller,
                cycle_plan(None),
            ),
    {
        self.write_command(SET_DEFAULTS, None)
    }

    /// Makes every key typematic only. Takes effect under scancode set 3 alone.
    pub fn set_all_keys_typematic(&mut self) -> (r: Result<(), KeyboardError>)
        requires
            old(self).controller.wf(),
        ensures
            final(self).controller.continues(old(self).controller),
            command_cycle(
                old(self).controller.log(),
                final(self).controller.log(),
                SET_ALL_KEYS_TYPEMATIC,
                None,
                old(self).controller.non_blocking_mode(),
                r,
            ),
            r matches Err(KeyboardError::ControllerError(_)) ==> final(self).controller.gave_up_in(
                old(self).controller,
                cycle_plan(None),
            ),
    {
        self.write_command(SET_ALL_KEYS_TYPEMATIC, None)
    }

    /// Makes every key make/break only. Takes effect under scancode set 3 alone.
    pub fn set_all_keys_make_break(&mut self) -> (r: Result<(), KeyboardError>)
        requires
            old(self).controller.wf(),
        ensures
            final(self).controller.continues(old(self).controller),
            command_cycle(
                old(self).controller.log(),
                final(self).controller.log(),
                SET_ALL_KEYS_MAKE_BREAK,
                None,
                old(self).controller.non_blocking_mode(),
                r,
            ),
            r matches Err(KeyboardError::ControllerError(_)) ==> final(self).controller.gave_up_in(
                old(self).controller,
                cycle_plan(None),
            ),
    {
        self.write_command(SET_ALL_KEYS_MAKE_BREAK, None)
    }

    /// Makes every key make only. Takes effect under scancode set 3 alone.
    pub fn set_all_keys_make_only(&mut self) -> (r: Result<(), KeyboardError>)
        requires
            old(self).controller.wf(),
        ensures
            final(self).controller.continues(old(self).controller),
            command_cycle(
                old(self).controller.log(),
                final(self).controller.log(),
                SET_ALL_KEYS_MAKE_ONLY,
                None,
                old(self).controller.non_blocking_mode(),
                r,
            ),
            r matches Err(KeyboardError::ControllerError(_)) ==> final(self).controller.gave_up_in(
                old(self).controller,
                cycle_plan(None),
            ),
    {
        self.write_command(SET_ALL_KEYS_MAKE_ONLY, None)
    }

    /// Makes every key typematic and make/break. Takes effect under scancode set 3 alone.
    pub fn set_all_keys_typematic_make_break(&mut self) -> (r: Result<(), KeyboardError>)
        requires
            old(self).controller.wf(),
        ensures
            final(self).controller.continues(old(self).controller),
            command_cycle(
                old(self).controller.log(),
                final(self).controller.log(),
                SET_ALL_KEYS_TYPEMATIC_AND_MAKE_BREAK,
                None,
                old(self).controller.non_blocking_mode(),
                r,
            ),
            r matches Err(KeyboardError::ControllerError(_)) ==> final(self).controller.gave_up_in(
                old(self).controller,
                cycle_plan(None),
            ),
    {
        self.write_command(SET_ALL_KEYS_TYPEMATIC_AND_MAKE_BREAK, None)
    }

    /// Makes the key `scancode` typematic only. Takes effect under scancode set 3 alone.
    pub fn set_key_typematic(&mut self, scancode: u8) -> (r: Result<(), KeyboardError>)
        requires
            old(self).controller.wf(),
        ensures
            final(self).controller.continues(old(self).controller),
            command_cycle(
                old(self).controller.log(),
                final(self).controller.log(),
                SET_KEY_TYPEMATIC,
                Some(scancode),
                old(self).controller.non_blocking_mode(),
                r,
            ),
            r matches Err(KeyboardError::ControllerError(_)) ==> final(self).controller.gave_up_in(
                old(self).controller,
                cycle_plan(Some(scancode)),
            ),
    {
        self.write_command(SET_KEY_TYPEMATIC, Some(scancode))
    }

    /// Makes the key `scancode` make/break only. Takes effect under scancode set 3 alone.
    pub fn set_key_make_break(&mut self, scancode: u8) -> (r: Result<(), KeyboardError>)
        requires
            old(self).controller.wf(),
        ensures
            final(self).controller.continues(old(self).controller),
            command_cycle(
                old(self).controller.log(),
                final(self).controller.log(),
                SET_KEY_MAKE_BREAK,
                Some(scancode),
                old(self).controller.non_blocking_mode(),
                r,
            ),
            r matches Err(KeyboardError::ControllerError(_)) ==> final(self).controller.gave_up_in(
                old(self).controller,
                cycle_plan(Some(scancode)),
            ),
    {
        self.write_command(SET_KEY_MAKE_BREAK, Some(scancode))
    }

    /// Makes the key `scancode` make only. Takes effect under scancode set 3 alone.
    pub fn set_key_make_only(&mut self, scancode: u8) -> (r: Result<(), KeyboardError>)
        requires
            old(self).controller.wf(),
        ensures
            final(self).controller.continues(old(self).controller),
            command_cycle(
                old(self).controller.log(),
                final(self).controller.log(),
                SET_KEY_MAKE_ONLY,
                Some(scancode),
                old(self).controller.non_blocking_mode(),
                r,
            ),
            r matches Err(KeyboardError::ControllerError(_)) ==> final(self).controller.gave_up_in(
                old(self).controller,
                cycle_plan(Some(scancode)),
            ),
    {
        self.write_command(SET_KEY_MAKE_ONLY, Some(scancode))
    }

    /// The last byte the keyboard sent, sent again. A keyboard that asks for
    /// this request again fails it with [`KeyboardError::Resend`].
    pub fn resend_last_byte(&mut self) -> (r: Result<u8, KeyboardError>)
        requires
            old(self).controller.wf(),
        ensures
            final(self).controller.continues(old(self).controller),
            exchanged(
                old(self).controller.log(),
                seq![PortEvent::WriteData(RESEND_LAST_BYTE)],
                final(self).controller.log(),
            ),
            r matches Err(KeyboardError::ControllerError(_)) ==> final(self).controller.gave_up_in(
                old(self).controller,
                seq![false, true],
            ),
            r == match reply(
                old(self).controller.log(),
                seq![PortEvent::WriteData(RESEND_LAST_BYTE)],
                final(self).controller.log(),
                old(self).controller.non_blocking_mode(),
            ) {
                Ok(b) => if b == RESEND {
                    Err(KeyboardError::Resend)
                } else {
                    Ok(b)
                },
                Err(e) => Err(KeyboardError::ControllerError(e)),
            },
    {
        let ghost before = self.controller.log();
        let ghost sends = seq![PortEvent::WriteData(RESEND_LAST_BYTE)];
        proof {
            assert(before + sends.take(0) =~= before);
            assert(before.push(PortEvent::WriteData(RESEND_LAST_BYTE)) =~= before + sends);
        }
        match self.controller.write_data(RESEND_LAST_BYTE) {
            Ok(()) => {},
            Err(e) => {
                return Err(KeyboardError::ControllerError(e));
            },
        }
        let response = self.controller.read_data();
        proof {
            if response is Ok {
                assert(self.controller.log().drop_last() =~= before + sends);
            }
        }
        match response {
            Ok(RESEND) => Err(KeyboardError::Resend),
            Ok(byte) => Ok(byte),
            Err(e) => Err(KeyboardError::ControllerError(e)),
        }
    }

    /// Resets the keyboard and runs its self-test: the reset opcode is
    /// acknowledged, then one more byte tells how the test went.
    pub fn reset_and_self_test(&mut self) -> (r: Result<(), KeyboardError>)
        requires
            old(self).controller.wf(),
        ensures
            final(self).controller.continues(old(self).controller),
            ({
                let before = old(self).controller.log();
                let after = final(self).controller.log();
                let nb = old(self).controller.non_blocking_mode();
                let acked = acknowledged(before, RESET_AND_SELF_TEST, None);
                ||| (command_cycle(before, after, RESET_AND_SELF_TEST, None, nb, r) && r is Err)
                ||| {
                    &&& exchanged(acked, Seq::empty(), after)
                    &&& r == match reply(acked, Seq::empty(), after, nb) {
                        Ok(b) => self_test_outcome(b),
                        Err(e) => Err(KeyboardError::ControllerError(e)),
                    }
                }
            }),
            r matches Err(KeyboardError::ControllerError(_)) ==> final(self).controller.gave_up_in(
                old(self).controller,
                seq![false, true, true],
            ),
    {
        let ghost before = self.controller.log();
        self.write_command(RESET_AND_SELF_TEST, None)?;
        let ghost acked = self.controller.log();
        proof {
            assert(acked =~= acked.drop_last().push(acked.last()));
            assert(acked =~= acknowledged(before, RESET_AND_SELF_TEST, None));
            assert(acked + Seq::<PortEvent>::empty() =~= acked);
        }
        let response = self.controller.read_data();
        proof {
            if response is Ok {
                assert(self.controller.log().drop_last() =~= acked);
            }
        }
        match response {
            Ok(SELF_TEST_PASSED) => Ok(()),
            Ok(SELF_TEST_FAILED) => Err(KeyboardError::SelfTestFailed),
            Ok(RESEND) => Err(KeyboardError::Resend),
            Ok(other) => Err(KeyboardError::InvalidResponse(other)),
            Err(e) => Err(KeyboardError::ControllerError(e)),
        }
    }
}

} // verus!
