//! The mouse protocol: as the keyboard's, but each command reaches the mouse
//! through the controller's mouse-select opcode.
use vstd::prelude::*;

use crate::controller::{Controller, WRITE_MOUSE};
use crate::error::{ControllerError, MouseError};
use crate::flags::{MouseMovement, MouseStatus};
use crate::mouse_type::{mouse_type_of, MouseType};
use crate::port::{
    byte_read, delivery, exchanged, extended_by_reads, offered, read_failure, reply, PortEvent,
    RegisterPort,
};
use crate::response::{COMMAND_ACKNOWLEDGED, RESEND, SELF_TEST_FAILED, SELF_TEST_PASSED};

verus! {

/// Mouse opcode: scaling 1:1.
pub const SET_SCALING_ONE_TO_ONE: u8 = 0xe6;
/// Mouse opcode: scaling 2:1.
pub const SET_SCALING_TWO_TO_ONE: u8 = 0xe7;
/// Mouse opcode: set the resolution.
pub const SET_RESOLUTION: u8 = 0xe8;
/// Mouse opcode: send a status packet.
pub const STATUS_REQUEST: u8 = 0xe9;
/// Mouse opcode: stream mode.
pub const SET_STREAM_MODE: u8 = 0xea;
/// Mouse opcode: send a movement packet.
pub const READ_DATA: u8 = 0xeb;
/// Mouse opcode: leave wrap mode.
pub const RESET_WRAP_MODE: u8 = 0xec;
/// Mouse opcode: wrap mode.
pub const SET_WRAP_MODE: u8 = 0xee;
/// Mouse opcode: remote mode.
pub const SET_REMOTE_MODE: u8 = 0xf0;
/// Mouse opcode: identify.
pub const GET_DEVICE_ID: u8 = 0xf2;
/// Mouse opcode: set the sample rate.
pub const SET_SAMPLE_RATE: u8 = 0xf3;
/// Mouse opcode: enable data reporting.
pub const ENABLE_DATA_REPORTING: u8 = 0xf4;
/// Mouse opcode: disable data reporting.
pub const DISABLE_DATA_REPORTING: u8 = 0xf5;
/// Mouse opcode: restore the default settings.
pub const SET_DEFAULTS: u8 = 0xf6;
/// Mouse opcode: send the last packet again.
pub const RESEND_LAST_PACKET: u8 = 0xfe;
/// Mouse opcode: reset and run the self-test.
pub const RESET_AND_SELF_TEST: u8 = 0xff;

/// What the acknowledgement byte `byte` from the mouse means.
pub open spec fn mouse_acknowledgement(byte: u8) -> Result<(), MouseError> {
    if byte == COMMAND_ACKNOWLEDGED {
        Ok(())
    } else if byte == RESEND {
        Err(MouseError::Resend)
    } else {
        Err(MouseError::InvalidResponse(byte))
    }
}

/// The result of a handshake with the mouse whose exchange had the outcome `reply`.
pub open spec fn mouse_handshake_result(reply: Result<u8, ControllerError>) -> Result<(), MouseError> {
    match reply {
        Ok(b) => mouse_acknowledgement(b),
        Err(e) => Err(MouseError::ControllerError(e)),
    }
}

/// The writes that send `command` to the mouse: the mouse-select opcode, then
/// the command itself.
pub open spec fn routed(command: u8) -> Seq<PortEvent> {
    seq![PortEvent::WriteCommand(WRITE_MOUSE), PortEvent::WriteData(command)]
}

/// The log after `command` was routed to the mouse and acknowledged, then
/// `data`, if any, written and acknowledged.
pub open spec fn mouse_acknowledged(before: Seq<PortEvent>, command: u8, data: Option<u8>) -> Seq<PortEvent> {
    let first = (before + routed(command)).push(PortEvent::ReadData(COMMAND_ACKNOWLEDGED));
    match data {
        Some(d) => first.push(PortEvent::WriteData(d)).push(PortEvent::ReadData(COMMAND_ACKNOWLEDGED)),
        None => first,
    }
}

/// The log went from `before` to `after`, with result `r`, as a mouse command
/// does: `command` is routed to the mouse and its acknowledgement read; once
/// that is a plain acknowledgement, the argument `data`, if any, is written to
/// the data register and its acknowledgement read.
pub open spec fn mouse_command_cycle(
    before: Seq<PortEvent>,
    after: Seq<PortEvent>,
    command: u8,
    data: Option<u8>,
    non_blocking: bool,
    r: Result<(), MouseError>,
) -> bool {
    let first = mouse_handshake_result(reply(before, routed(command), after, non_blocking));
    match data {
        None => exchanged(before, routed(command), after) && r == first,
        Some(d) => {
            let mid = mouse_acknowledged(before, command, None);
            ||| (exchanged(before, routed(command), after) && first is Err && r == first)
            ||| {
                &&& exchanged(mid, seq![PortEvent::WriteData(d)], after)
                &&& r == mouse_handshake_result(reply(mid, seq![PortEvent::WriteData(d)], after, non_blocking))
            }
        },
    }
}

/// The transfers of a mouse command, `true` for a read: the mouse-select
/// opcode, the command and its acknowledgement, then the argument and its
/// acknowledgement, if any.
pub open spec fn mouse_cycle_plan(data: Option<u8>) -> Seq<bool> {
    match data {
        Some(_) => seq![false, false, true, false, true],
        None => seq![false, false, true],
    }
}

/// The position of `counts_per_mm` in the table of resolutions (1, 2, 4 and 8
/// counts per millimetre).
pub open spec fn resolution_index(counts_per_mm: u8) -> Option<u8> {
    if counts_per_mm == 1 {
        Some(0)
    } else if counts_per_mm == 2 {
        Some(1)
    } else if counts_per_mm == 4 {
        Some(2)
    } else if counts_per_mm == 8 {
        Some(3)
    } else {
        None
    }
}

/// Whether `rate` is in the table of sample rates, in samples per second.
pub open spec fn valid_sample_rate(rate: u8) -> bool {
    rate == 10 || rate == 20 || rate == 40 || rate == 60 || rate == 80 || rate == 100 || rate == 200
}

/// The check of the last two bytes of a status packet: the resolution code
/// must index the table of resolutions and the sample rate be in its table.
pub open spec fn status_check(resolution: u8, sample_rate: u8) -> Result<(), MouseError> {
    if resolution >= 4 {
        Err(MouseError::InvalidResolution(resolution))
    } else if !valid_sample_rate(sample_rate) {
        Err(MouseError::InvalidSampleRate(sample_rate))
    } else {
        Ok(())
    }
}

/// A 9-bit two's complement movement: the byte `raw`, less 256 when the sign
/// bit kept in the flags byte is set.
pub open spec fn movement_delta(raw: u8, negative: bool) -> int {
    if negative {
        raw - 256
    } else {
        raw as int
    }
}

/// The movement packet that the bytes `flags`, `x` and `y` encode.
pub open spec fn packet_matches(packet: (MouseMovement, i16, i16), flags: u8, x: u8, y: u8) -> bool {
    &&& packet.0@ == flags & MouseMovement::ALL
    &&& packet.1 == movement_delta(x, flags & MouseMovement::X_SIGN_BIT == MouseMovement::X_SIGN_BIT)
    &&& packet.2 == movement_delta(y, flags & MouseMovement::Y_SIGN_BIT == MouseMovement::Y_SIGN_BIT)
}

/// What the reply `byte` to a reset means.
pub open spec fn mouse_self_test_outcome(byte: u8) -> Result<(), MouseError> {
    if byte == SELF_TEST_PASSED {
        Ok(())
    } else if byte == SELF_TEST_FAILED {
        Err(MouseError::SelfTestFailed)
    } else if byte == RESEND {
        Err(MouseError::Resend)
    } else {
        Err(MouseError::InvalidResponse(byte))
    }
}

/// Sign-extends the 9-bit value whose low byte is `raw` and whose sign is `negative`.
fn sign_extend(raw: u8, negative: bool) -> (r: i16)
    ensures
        r == movement_delta(raw, negative),
{
    let mut value = raw as u16;
    if negative {
        value = value | 0xff00;
        proof {
            assert((raw as u16 | 0xff00u16) as i16 == (raw as i16) - 256i16) by (bit_vector);
        }
    }
    value as i16
}

/// A PS/2 mouse, reached through the controller it borrows.
pub struct Mouse<'c, P: RegisterPort> {
    /// The controller that carries the bytes of this mouse.
    pub controller: &'c mut Controller<P>,
}

impl<'c, P: RegisterPort> Mouse<'c, P> {
    pub(crate) fn new(controller: &'c mut Controller<P>) -> (r: Self)
        ensures
            *r.controller == *old(controller),
            *final(controller) == *final(r.controller),
    {
        Mouse { controller }
    }

    fn check_response(&mut self) -> (r: Result<(), MouseError>)
        requires
            old(self).controller.wf(),
        ensures
            final(self).controller.continues(old(self).controller),
            exchanged(old(self).controller.log(), Seq::empty(), final(self).controller.log()),
            r == mouse_handshake_result(
                reply(
                    old(self).controller.log(),
                    Seq::empty(),
                    final(self).controller.log(),
                    old(self).controller.non_blocking_mode(),
                ),
            ),
            r matches Err(MouseError::ControllerError(_)) ==> final(self).controller.gave_up_in(
                old(self).controller,
                seq![true],
            ),
    {
        let ghost before = self.controller.log();
        proof {
            assert(before + Seq::<PortEvent>::empty() =~= before);
        }
        let response = self.controller.read_data();
        proof {
            if response is Ok {
                assert(self.controller.log().drop_last() =~= before);
            }
        }
        match response {
            Ok(COMMAND_ACKNOWLEDGED) => Ok(()),
            Ok(RESEND) => Err(MouseError::Resend),
            Ok(other) => Err(MouseError::InvalidResponse(other)),
            Err(e) => Err(MouseError::ControllerError(e)),
        }
    }

    fn routed_handshake(&mut self, command: u8) -> (r: Result<(), MouseError>)
        requires
            old(self).controller.wf(),
        ensures
            final(self).controller.continues(old(self).controller),
            exchanged(old(self).controller.log(), routed(command), final(self).controller.log()),
            r == mouse_handshake_result(
                reply(
                    old(self).controller.log(),
                    routed(command),
                    final(self).controller.log(),
                    old(self).controller.non_blocking_mode(),
                ),
            ),
            r matches Err(MouseError::ControllerError(_)) ==> final(self).controller.gave_up_in(
                old(self).controller,
                seq![false, false, true],
            ),
    {
        let ghost before = self.controller.log();
        match self.controller.write_mouse(command) {
            Ok(()) => {},
            Err(e) => {
                return Err(MouseError::ControllerError(e));
            },
        }
        proof {
            assert(routed(command).take(2) =~= routed(command));
        }
        self.check_response()
    }

    fn data_handshake(&mut self, byte: u8) -> (r: Result<(), MouseError>)
        requires
            old(self).controller.wf(),
        ensures
            final(self).controller.continues(old(self).controller),
            exchanged(old(self).controller.log(), seq![PortEvent::WriteData(byte)], final(self).controller.log()),
            r == mouse_handshake_result(
                reply(
                    old(self).controller.log(),
                    seq![PortEvent::WriteData(byte)],
                    final(self).controller.log(),
                    old(self).controller.non_blocking_mode(),
                ),
            ),
            r matches Err(MouseError::ControllerError(_)) ==> final(self).controller.gave_up_in(
                old(self).controller,
                seq![false, true],
            ),
    {
        let ghost before = self.controller.log();
        let ghost sends = seq![PortEvent::WriteData(byte)];
        proof {
            assert(before + sends.take(0) =~= before);
        }
        match self.controller.write_data(byte) {
            Ok(()) => {},
            Err(e) => {
                return Err(MouseError::ControllerError(e));
            },
        }
        proof {
            assert(before.push(PortEvent::WriteData(byte)) =~= before + sends);
        }
        self.check_response()
    }

    fn write_command(&mut self, command: u8, data: Option<u8>) -> (r: Result<(), MouseError>)
        requires
            old(self).controller.wf(),
        ensures
            final(self).controller.continues(old(self).controller),
            mouse_command_cycle(
                old(self).controller.log(),
                final(self).controller.log(),
                command,
                data,
                old(self).controller.non_blocking_mode(),
                r,
            ),
            r matches Err(MouseError::ControllerError(_)) ==> final(self).controller.gave_up_in(
                old(self).controller,
                mouse_cycle_plan(data),
            ),
    {
        let ghost before = self.controller.log();
        self.routed_handshake(command)?;
        proof {
            let log = self.controller.log();
            assert(log =~= log.drop_last().push(log.last()));
            assert(log =~= mouse_acknowledged(before, command, None));
        }
        if let Some(data) = data {
            self.data_handshake(data)?;
        }
        Ok(())
    }

    /// Reports movement at scaling 1:1.
    pub fn set_scaling_one_to_one(&mut self) -> (r: Result<(), MouseError>)
        requires
            old(self).controller.wf(),
        ensures
            final(self).controller.continues(old(self).controller),
            mouse_command_cycle(
                old(self).controller.log(),
                final(self).controller.log(),
                SET_SCALING_ONE_TO_ONE,
                None,
                old(self).controller.non_blocking_mode(),
                r,
            ),
            r matches Err(MouseError::ControllerError(_)) ==> final(self).controller.gave_up_in(
                old(self).controller,
                mouse_cycle_plan(None),
            ),
    {
        self.write_command(SET_SCALING_ONE_TO_ONE, None)
    }

    /// Reports movement at scaling 2:1.
    pub fn set_scaling_two_to_one(&mut self) -> (r: Result<(), MouseError>)
        requires
            old(self).controller.wf(),
        ensures
            final(self).controller.continues(old(self).controller),
            mouse_command_cycle(
                old(self).controller.log(),
                final(self).controller.log(),
                SET_SCALING_TWO_TO_ONE,
                None,
                old(self).controller.non_blocking_mode(),
                r,
            ),
            r matches Err(MouseError::ControllerError(_)) ==> final(self).controller.gave_up_in(
                old(self).controller,
                mouse_cycle_plan(None),
            ),
    {
        self.write_command(SET_SCALING_TWO_TO_ONE, None)
    }

    /// Sets the resolution to `counts_per_mm`, one of 1, 2, 4 and 8; the mouse
    /// is sent its index in that table. Any other value is refused with nothing
    /// sent.
    pub fn set_resolution(&mut self, counts_per_mm: u8) -> (r: Result<(), MouseError>)
        requires
            old(self).controller.wf(),
        ensures
            final(self).controller.continues(old(self).controller),
            match resolution_index(counts_per_mm) {
                Some(index) => mouse_command_cycle(
                    old(self).controller.log(),
                    final(self).controller.log(),
                    SET_RESOLUTION,
                    Some(index),
                    old(self).controller.non_blocking_mode(),
                    r,
                ),
                None => {
                    &&& r == Err::<(), MouseError>(MouseError::InvalidResolution(counts_per_mm))
                    &&& *final(self).controller == *old(self).controller
                },
            },
            r matches Err(MouseError::ControllerError(_)) ==> final(self).controller.gave_up_in(
                old(self).controller,
                mouse_cycle_plan(Some(0)),
            ),
    {
        let index: u8 = match counts_per_mm {
            1 => 0,
            2 => 1,
            4 => 2,
            8 => 3,
            other => {
                return Err(MouseError::InvalidResolution(other));
            },
        };
        self.write_command(SET_RESOLUTION, Some(index))
    }

    /// Reads a status packet, which also resets the movement counters: a
    /// status byte, a resolution code and a sample rate, the last two checked
    /// against their tables.
    pub fn get_status_packet(&mut self) -> (r: Result<(MouseStatus, u8, u8), MouseError>)
        requires
            old(self).controller.wf(),
        ensures
            final(self).controller.continues(old(self).controller),
            ({
                let before = old(self).controller.log();
                let after = final(self).controller.log();
                let nb = old(self).controller.non_blocking_mode();
                let acked = mouse_acknowledged(before, STATUS_REQUEST, None);
                match r {
                    Ok((status, resolution, sample_rate)) => {
                        &&& extended_by_reads(acked, after, 3)
                        &&& status@ == byte_read(acked, after, 0) & MouseStatus::ALL
                        &&& resolution == byte_read(acked, after, 1)
                        &&& sample_rate == byte_read(acked, after, 2)
                        &&& status_check(resolution, sample_rate) is Ok
                    },
                    Err(e) => {
                        ||| mouse_command_cycle(before, after, STATUS_REQUEST, None, nb, Err(e))
                        ||| {
                            &&& after.len() < acked.len() + 3
                            &&& extended_by_reads(acked, after, (after.len() - acked.len()) as nat)
                            &&& e == MouseError::ControllerError(read_failure(nb))
                        }
                        ||| {
                            &&& extended_by_reads(acked, after, 3)
                            &&& status_check(byte_read(acked, after, 1), byte_read(acked, after, 2))
                                == Err::<(), MouseError>(e)
                        }
                    },
                }
            }),
            r matches Err(MouseError::ControllerError(_)) ==> final(self).controller.gave_up_in(
                old(self).controller,
                seq![false, false, true, true, true, true],
            ),
    {
        let ghost before = self.controller.log();
        self.write_command(STATUS_REQUEST, None)?;
        let ghost acked = self.controller.log();
        proof {
            assert(acked =~= acked.drop_last().push(acked.last()));
            assert(acked =~= mouse_acknowledged(before, STATUS_REQUEST, None));
            assert(acked.take(acked.len() as int) =~= acked);
        }
        let status_byte = match self.controller.read_data() {
            Ok(b) => b,
            Err(e) => {
                return Err(MouseError::ControllerError(e));
            },
        };
        proof {
            assert(self.controller.log().take(acked.len() as int) =~= acked);
        }
        let status = MouseStatus::from_bits_truncate(status_byte);
        let resolution = match self.controller.read_data() {
            Ok(b) => b,
            Err(e) => {
                return Err(MouseError::ControllerError(e));
            },
        };
        proof {
            assert(self.controller.log().take(acked.len() as int) =~= acked);
        }
        let sample_rate = match self.controller.read_data() {
            Ok(b) => b,
            Err(e) => {
                return Err(MouseError::ControllerError(e));
            },
        };
        proof {
            assert(self.controller.log().take(acked.len() as int) =~= acked);
        }
        if resolution >= 4 {
            return Err(MouseError::InvalidResolution(resolution));
        }
        if !is_valid_sample_rate(sample_rate) {
            return Err(MouseError::InvalidSampleRate(sample_rate));
        }
        Ok((status, resolution, sample_rate))
    }

    /// Resets the movement counters and enters stream mode.
    pub fn set_stream_mode(&mut self) -> (r: Result<(), MouseError>)
        requires
            old(self).controller.wf(),
        ensures
            final(self).controller.continues(old(self).controller),
            mouse_command_cycle(
                old(self).controller.log(),
                final(self).controller.log(),
                SET_STREAM_MODE,
                None,
                old(self).controller.non_blocking_mode(),
                r,
            ),
            r matches Err(MouseError::ControllerError(_)) ==> final(self).controller.gave_up_in(
                old(self).controller,
                mouse_cycle_plan(None),
            ),
    {
        self.write_command(SET_STREAM_MODE, None)
    }

    /// Asks the mouse for a movement packet, which also resets the movement
    /// counters, and reads it as [`Mouse::read_data_packet`] does.
    pub fn request_data_packet(&mut self) -> (r: Result<(MouseMovement, i16, i16), MouseError>)
        requires
            old(self).controller.wf(),
        ensures
            final(self).controller.continues(old(self).controller),
            ({
                let before = old(self).controller.log();
                let after = final(self).controller.log();
                let nb = old(self).controller.non_blocking_mode();
                let acked = mouse_acknowledged(before, READ_DATA, None);
                match r {
                    Ok(packet) => {
                        &&& extended_by_reads(acked, after, 3)
                        &&& packet_matches(
                            packet,
                            byte_read(acked, after, 0),
                            byte_read(acked, after, 1),
                            byte_read(acked, after, 2),
                        )
                    },
                    Err(e) => {
                        ||| mouse_command_cycle(before, after, READ_DATA, None, nb, Err(e))
                        ||| {
                            &&& after.len() < acked.len() + 3
                            &&& extended_by_reads(acked, after, (after.len() - acked.len()) as nat)
                            &&& e == MouseError::ControllerError(read_failure(nb))
                        }
                    },
                }
            }),
            r matches Err(MouseError::ControllerError(_)) ==> final(self).controller.gave_up_in(
                old(self).controller,
                seq![false, false, true, true, true, true],
            ),
    {
        let ghost before = self.controller.log();
        self.write_command(READ_DATA, None)?;
        proof {
            let log = self.controller.log();
            assert(log =~= log.drop_last().push(log.last()));
            assert(log =~= mouse_acknowledged(before, READ_DATA, None));
        }
        self.read_data_packet()
    }

    /// Reads a movement packet already waiting in the data register, with no
    /// command sent, as an interrupt handler does: a flags byte, then the low
    /// bytes of the horizontal and vertical movements, whose sign bits are in
    /// the flags byte.
    pub fn read_data_packet(&mut self) -> (r: Result<(MouseMovement, i16, i16), MouseError>)
        requires
            old(self).controller.wf(),
        ensures
            final(self).controller.continues(old(self).controller),
            ({
                let before = old(self).controller.log();
                let after = final(self).controller.log();
                match r {
                    Ok(packet) => {
                        &&& extended_by_reads(before, after, 3)
                        &&& packet_matches(
                            packet,
                            byte_read(before, after, 0),
                            byte_read(before, after, 1),
                            byte_read(before, after, 2),
                        )
                    },
                    Err(e) => {
                        &&& after.len() < before.len() + 3
                        &&& extended_by_reads(before, after, (after.len() - before.len()) as nat)
                        &&& e == MouseError::ControllerError(read_failure(old(self).controller.non_blocking_mode()))
                    },
                }
            }),
            r matches Err(MouseError::ControllerError(_)) ==> final(self).controller.gave_up_in(
                old(self).controller,
                seq![true, true, true],
            ),
    {
        let ghost before = self.controller.log();
        proof {
            assert(before.take(before.len() as int) =~= before);
        }
        let flags_byte = match self.controller.read_data() {
            Ok(b) => b,
            Err(e) => {
                return Err(MouseError::ControllerError(e));
            },
        };
        proof {
            assert(self.controller.log().take(before.len() as int) =~= before);
        }
        let movement_flags = MouseMovement::from_bits_truncate(flags_byte);
        let x_raw = match self.controller.read_data() {
            Ok(b) => b,
            Err(e) => {
                return Err(MouseError::ControllerError(e));
            },
        };
        proof {
            assert(self.controller.log().take(before.len() as int) =~= before);
        }
        let y_raw = match self.controller.read_data() {
            Ok(b) => b,
            Err(e) => {
                return Err(MouseError::ControllerError(e));
            },
        };
        proof {
            assert(self.controller.log().take(before.len() as int) =~= before);
            assert((flags_byte & 0b1111_0111u8) & 0b0001_0000u8 == flags_byte & 0b0001_0000u8) by (bit_vector);
            assert((flags_byte & 0b1111_0111u8) & 0b0010_0000u8 == flags_byte & 0b0010_0000u8) by (bit_vector);
        }
        let x_movement = sign_extend(x_raw, movement_flags.contains(MouseMovement::X_SIGN_BIT));
        let y_movement = sign_extend(y_raw, movement_flags.contains(MouseMovement::Y_SIGN_BIT));
        Ok((movement_flags, x_movement, y_movement))
    }

    /// Resets the movement counters and leaves wrap mode for the mode before it.
    pub fn reset_wrap_mode(&mut self) -> (r: Result<(), MouseError>)
        requires
            old(self).controller.wf(),
        ensures
            final(self).controller.continues(old(self).controller),
            mouse_command_cycle(
                old(self).controller.log(),
                final(self).controller.log(),
                RESET_WRAP_MODE,
                None,
                old(self).controller.non_blocking_mode(),
                r,
            ),
            r matches Err(MouseError::ControllerError(_)) ==> final(self).controller.gave_up_in(
                old(self).controller,
                mouse_cycle_plan(None),
            ),
    {
        self.write_command(RESET_WRAP_MODE, None)
    }

    /// Resets the movement counters and enters wrap mode.
    pub fn set_wrap_mode(&mut self) -> (r: Result<(), MouseError>)
        requires
            old(self).controller.wf(),
        ensures
            final(self).controller.continues(old(self).controller),
            mouse_command_cycle(
                old(self).controller.log(),
                final(self).controller.log(),
                SET_WRAP_MODE,
                None,
                old(self).controller.non_blocking_mode(),
                r,
            ),
            r matches Err(MouseError::ControllerError(_)) ==> final(self).controller.gave_up_in(
                old(self).controller,
                mouse_cycle_plan(None),
            ),
    {
        self.write_command(SET_WRAP_MODE, None)
    }

    /// Resets the movement counters and enters remote mode.
    pub fn set_remote_mode(&mut self) -> (r: Result<(), MouseError>)
        requires
            old(self).controller.wf(),
        ensures
            final(self).controller.continues(old(self).controller),
            mouse_command_cycle(
                old(self).controller.log(),
                final(self).controller.log(),
                SET_REMOTE_MODE,
                None,
                old(self).controller.non_blocking_mode(),
                r,
            ),
            r matches Err(MouseError::ControllerError(_)) ==> final(self).controller.gave_up_in(
                old(self).controller,
                mouse_cycle_plan(None),
            ),
    {
        self.write_command(SET_REMOTE_MODE, None)
    }

    /// Identifies the mouse: after the acknowledgement, one identification
    /// byte, looked up in the table of mice.
    pub fn get_mouse_type(&mut self) -> (r: Result<MouseType, MouseError>)
        requires
            old(self).controller.wf(),
        ensures
            final(self).controller.continues(old(self).controller),
            ({
                let before = old(self).controller.log();
                let after = final(self).controller.log();
                let nb = old(self).controller.non_blocking_mode();
                let acked = mouse_acknowledged(before, GET_DEVICE_ID, None);
                match r {
                    Ok(t) => extended_by_reads(acked, after, 1) && t == mouse_type_of(byte_read(acked, after, 0)),
                    Err(e) => {
                        ||| mouse_command_cycle(before, after, GET_DEVICE_ID, None, nb, Err(e))
                        ||| (after == acked && e == MouseError::ControllerError(read_failure(nb)))
                    },
                }
            }),
            r matches Err(MouseError::ControllerError(_)) ==> final(self).controller.gave_up_in(
                old(self).controller,
                seq![false, false, true, true],
            ),
    {
        let ghost before = self.controller.log();
        self.write_command(GET_DEVICE_ID, None)?;
        let ghost acked = self.controller.log();
        proof {
            assert(acked =~= acked.drop_last().push(acked.last()));
            assert(acked =~= mouse_acknowledged(before, GET_DEVICE_ID, None));
        }
        match self.controller.read_data() {
            Ok(id) => {
                proof {
                    assert(self.controller.log().take(acked.len() as int) =~= acked);
                }
                Ok(MouseType::from(id))
            },
            Err(e) => Err(MouseError::ControllerError(e)),
        }
    }

    /// Sets the sample rate, in samples per second, one of 10, 20, 40, 60, 80,
    /// 100 and 200, and resets the movement counters. Any other rate is refused
    /// with nothing sent.
    pub fn set_sample_rate(&mut self, sample_rate: u8) -> (r: Result<(), MouseError>)
        requires
            old(self).controller.wf(),
        ensures
            final(self).controller.continues(old(self).controller),
            valid_sample_rate(sample_rate) ==> mouse_command_cycle(
                old(self).controller.log(),
                final(self).controller.log(),
                SET_SAMPLE_RATE,
                Some(sample_rate),
                old(self).controller.non_blocking_mode(),
                r,
            ),
            !valid_sample_rate(sample_rate) ==> {
                &&& r == Err::<(), MouseError>(MouseError::InvalidSampleRate(sample_rate))
                &&& *final(self).controller == *old(self).controller
            },
            r matches Err(MouseError::ControllerError(_)) ==> final(self).controller.gave_up_in(
                old(self).controller,
                mouse_cycle_plan(Some(0)),
            ),
    {
        if !is_valid_sample_rate(sample_rate) {
            return Err(MouseError::InvalidSampleRate(sample_rate));
        }
        self.write_command(SET_SAMPLE_RATE, Some(sample_rate))
    }

    /// Enables data reporting, in stream mode, and resets the movement counters.
    pub fn enable_data_reporting(&mut self) -> (r: Result<(), MouseError>)
        requires
            old(self).controller.wf(),
        ensures
            final(self).controller.continues(old(self).controller),
            mouse_command_cycle(
                old(self).controller.log(),
                final(self).controller.log(),
                ENABLE_DATA_REPORTING,
                None,
                old(self).controller.non_blocking_mode(),
                r,
            ),
            r matches Err(MouseError::ControllerError(_)) ==> final(self).controller.gave_up_in(
                old(self).controller,
                mouse_cycle_plan(None),
            ),
    {
        self.write_command(ENABLE_DATA_REPORTING, None)
    }

    /// Disables data reporting, in stream mode, and resets the movement counters.
    /// Sampling goes on: [`Mouse::request_data_packet`] still reads packets.
    pub fn disable_data_reporting(&mut self) -> (r: Result<(), MouseError>)
        requires
            old(self).controller.wf(),
        ensures
            final(self).controller.continues(old(self).controller),
            mouse_command_cycle(
                old(self).controller.log(),
                final(self).controller.log(),
                DISABLE_DATA_REPORTING,
                None,
                old(self).controller.non_blocking_mode(),
                r,
            ),
            r matches Err(MouseError::ControllerError(_)) ==> final(self).controller.gave_up_in(
                old(self).controller,
                mouse_cycle_plan(None),
            ),
    {
        self.write_command(DISABLE_DATA_REPORTING, None)
    }

    /// Restores the defaults (100 samples per second, 4 counts per millimetre,
    /// scaling 1:1, data reporting disabled), clears the movement counters and
    /// enters stream mode.
    pub fn set_defaults(&mut self) -> (r: Result<(), MouseError>)
        requires
            old(self).controller.wf(),
        ensures
            final(self).controller.continues(old(self).controller),
            mouse_command_cycle(
                old(self).controller.log(),
                final(self).controller.log(),
                SET_DEFAULTS,
                None,
                old(self).controller.non_blocking_mode(),
                r,
            ),
            r matches Err(MouseError::ControllerError(_)) ==> final(self).controller.gave_up_in(
                old(self).controller,
                mouse_cycle_plan(None),
            ),
    {
        self.write_command(SET_DEFAULTS, None)
    }

    /// Asks the mouse to send its last packet again. The bytes that follow are
    /// left for the caller to read with [`Controller::read_data`].
    pub fn resend_last_packet(&mut self) -> (r: Result<(), MouseError>)
        requires
            old(self).controller.wf(),
        ensures
            final(self).controller.continues(old(self).controller),
            offered(old(self).controller.log(), routed(RESEND_LAST_PACKET), final(self).controller.log()),
            r == match delivery(old(self).controller.log(), routed(RESEND_LAST_PACKET), final(self).controller.log()) {
                Ok(()) => Ok(()),
                Err(e) => Err(MouseError::ControllerError(e)),
            },
            r matches Err(MouseError::ControllerError(_)) ==> final(self).controller.gave_up_in(
                old(self).controller,
                seq![false, false],
            ),
    {
        match self.controller.write_mouse(RESEND_LAST_PACKET) {
            Ok(()) => Ok(()),
            Err(e) => Err(MouseError::ControllerError(e)),
        }
    }

    /// Resets the mouse and runs its self-test: the reset opcode is
    /// acknowledged, then one byte tells how the test went and one more gives
    /// the device identifier. That last byte is read whatever the test said, so
    /// the data register is left empty.
    pub fn reset_and_self_test(&mut self) -> (r: Result<(), MouseError>)
        requires
            old(self).controller.wf(),
        ensures
            final(self).controller.continues(old(self).controller),
            ({
                let before = old(self).controller.log();
                let after = final(self).controller.log();
                let nb = old(self).controller.non_blocking_mode();
                let acked = mouse_acknowledged(before, RESET_AND_SELF_TEST, None);
                ||| (mouse_command_cycle(before, after, RESET_AND_SELF_TEST, None, nb, r) && r is Err)
                ||| {
                    &&& after.len() < acked.len() + 2
                    &&& extended_by_reads(acked, after, (after.len() - acked.len()) as nat)
                    &&& r == Err::<(), MouseError>(MouseError::ControllerError(read_failure(nb)))
                }
                ||| extended_by_reads(acked, after, 2) && r == mouse_self_test_outcome(byte_read(acked, after, 0))
            }),
            r matches Err(MouseError::ControllerError(_)) ==> final(self).controller.gave_up_in(
                old(self).controller,
                seq![false, false, true, true, true],
            ),
    {
        let ghost before = self.controller.log();
        self.write_command(RESET_AND_SELF_TEST, None)?;
        let ghost acked = self.controller.log();
        proof {
            assert(acked =~= acked.drop_last().push(acked.last()));
            assert(acked =~= mouse_acknowledged(before, RESET_AND_SELF_TEST, None));
            assert(acked.take(acked.len() as int) =~= acked);
        }
        let result = match self.controller.read_data() {
            Ok(SELF_TEST_PASSED) => Ok(()),
            Ok(SELF_TEST_FAILED) => Err(MouseError::SelfTestFailed),
            Ok(RESEND) => Err(MouseError::Resend),
            Ok(other) => Err(MouseError::InvalidResponse(other)),
            Err(e) => {
                return Err(MouseError::ControllerError(e));
            },
        };
        proof {
            assert(self.controller.log().take(acked.len() as int) =~= acked);
        }
        // The device identifier always follows; it is read whatever the test said.
        match self.controller.read_data() {
            Ok(_device_id) => {},
            Err(e) => {
                return Err(MouseError::ControllerError(e));
            },
        }
        proof {
            assert(self.controller.log().take(acked.len() as int) =~= acked);
        }
        result
    }
}

/// Whether `rate` is in the table of sample rates.
fn is_valid_sample_rate(rate: u8) -> (r: bool)
    ensures
        r == valid_sample_rate(rate),
{
    matches!(rate, 10 | 20 | 40 | 60 | 80 | 100 | 200)
}

} // verus!
