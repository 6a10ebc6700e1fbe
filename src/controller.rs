//! The controller: bounded polling of the two registers, and the commands of
//! the controller itself.
use vstd::prelude::*;

use crate::error::ControllerError;
use crate::flags::{ControllerConfig, ControllerInput, ControllerOutput, ControllerStatus};
use crate::keyboard::Keyboard;
use crate::mouse::Mouse;
use crate::port::{
    delivery, disciplined, exchanged, gave_up, polled_until_ready, lemma_transfers_push, offered, permits, reply, read_failure, transfers, PortEvent, RegisterPort,
    COMMAND_REGISTER, DATA_REGISTER,
};

verus! {

/// Number of status polls a wait makes before it gives up, unless another
/// bound is given.
pub const DEFAULT_TIMEOUT: usize = 10_000;

/// Controller opcode: read byte `n` of the internal RAM (`n` in the low five bits).
pub const READ_INTERNAL_RAM: u8 = 0x20;
/// Controller opcode: write byte `n` of the internal RAM (`n` in the low five bits).
pub const WRITE_INTERNAL_RAM: u8 = 0x60;
/// Controller opcode: disable the mouse interface.
pub const DISABLE_MOUSE: u8 = 0xa7;
/// Controller opcode: enable the mouse interface.
pub const ENABLE_MOUSE: u8 = 0xa8;
/// Controller opcode: test the mouse interface.
pub const TEST_MOUSE: u8 = 0xa9;
/// Controller opcode: self-test of the controller.
pub const TEST_CONTROLLER: u8 = 0xaa;
/// Controller opcode: test the keyboard interface.
pub const TEST_KEYBOARD: u8 = 0xab;
/// Controller opcode: dump the internal RAM.
pub const DIAGNOSTIC_DUMP: u8 = 0xac;
/// Controller opcode: disable the keyboard interface.
pub const DISABLE_KEYBOARD: u8 = 0xad;
/// Controller opcode: enable the keyboard interface.
pub const ENABLE_KEYBOARD: u8 = 0xae;
/// Controller opcode: read the input port.
pub const READ_INPUT_PORT: u8 = 0xc0;
/// Controller opcode: copy the low nibble of the input port to the status register.
pub const WRITE_LOW_INPUT_NIBBLE_TO_STATUS: u8 = 0xc1;
/// Controller opcode: copy the high nibble of the input port to the status register.
pub const WRITE_HIGH_INPUT_NIBBLE_TO_STATUS: u8 = 0xc2;
/// Controller opcode: read the output port.
pub const READ_OUTPUT_PORT: u8 = 0xd0;
/// Controller opcode: write the output port.
pub const WRITE_OUTPUT_PORT: u8 = 0xd1;
/// Controller opcode: put the next data byte in the output buffer as if the keyboard sent it.
pub const WRITE_KEYBOARD_BUFFER: u8 = 0xd2;
/// Controller opcode: put the next data byte in the output buffer as if the mouse sent it.
pub const WRITE_MOUSE_BUFFER: u8 = 0xd3;
/// Controller opcode: send the next data byte to the mouse.
pub const WRITE_MOUSE: u8 = 0xd4;
/// Controller opcode: read the test port.
pub const READ_TEST_PORT: u8 = 0xe0;
/// Controller opcode: pulse the output lines given in the low nibble.
pub const PULSE_OUTPUT: u8 = 0xf0;

/// The internal RAM address bits of the read and write opcodes.
pub const INTERNAL_RAM_ADDRESS_MASK: u8 = 0x1f;

/// The bits of a pulse opcode that select output lines.
pub const PULSE_LINE_MASK: u8 = 0x0f;

/// The reply of a controller self-test that passed.
pub const CONTROLLER_TEST_PASSED: u8 = 0x55;

/// The reply of an interface test that passed.
pub const INTERFACE_TEST_PASSED: u8 = 0x00;

/// Number of bytes in the internal RAM.
pub const INTERNAL_RAM_SIZE: usize = 32;

/// The result of a self-test whose exchange had the outcome `reply`.
pub open spec fn test_result(reply: Result<u8, ControllerError>, passed: u8) -> Result<(), ControllerError> {
    match reply {
        Ok(b) => if b == passed {
            Ok(())
        } else {
            Err(ControllerError::TestFailed { response: b })
        },
        Err(e) => Err(e),
    }
}

/// The opcode that reads internal RAM byte `byte_number`.
pub open spec fn read_ram_opcode(byte_number: u8) -> u8 {
    READ_INTERNAL_RAM | (byte_number & INTERNAL_RAM_ADDRESS_MASK)
}

/// The opcode that writes internal RAM byte `byte_number`.
pub open spec fn write_ram_opcode(byte_number: u8) -> u8 {
    WRITE_INTERNAL_RAM | (byte_number & INTERNAL_RAM_ADDRESS_MASK)
}

/// The events of reading `bytes` from the data register, in order.
pub open spec fn reads_of(bytes: Seq<u8>) -> Seq<PortEvent> {
    bytes.map_values(|b: u8| PortEvent::ReadData(b))
}

/// The log went from `before` to `after` as a controller command without
/// argument does: `command` was written, or nothing was and the wait timed out.
pub open spec fn issued(
    before: Seq<PortEvent>,
    after: Seq<PortEvent>,
    command: u8,
    r: Result<(), ControllerError>,
) -> bool {
    match r {
        Ok(()) => after == before.push(PortEvent::WriteCommand(command)),
        Err(e) => e == ControllerError::Timeout && after == before,
    }
}

/// The internal RAM opcodes carry the address in their low five bits, above
/// which stands the base opcode: the address used is `byte_number & 0x1f`.
pub proof fn internal_ram_opcodes_mask_address(byte_number: u8)
    ensures
        read_ram_opcode(byte_number) & INTERNAL_RAM_ADDRESS_MASK == byte_number & INTERNAL_RAM_ADDRESS_MASK,
        read_ram_opcode(byte_number) & !INTERNAL_RAM_ADDRESS_MASK == READ_INTERNAL_RAM,
        write_ram_opcode(byte_number) & INTERNAL_RAM_ADDRESS_MASK == byte_number & INTERNAL_RAM_ADDRESS_MASK,
        write_ram_opcode(byte_number) & !INTERNAL_RAM_ADDRESS_MASK == WRITE_INTERNAL_RAM,
{
    assert((0x20u8 | (byte_number & 0x1fu8)) & 0x1fu8 == byte_number & 0x1fu8) by (bit_vector);
    assert((0x20u8 | (byte_number & 0x1fu8)) & !0x1fu8 == 0x20u8) by (bit_vector);
    assert((0x60u8 | (byte_number & 0x1fu8)) & 0x1fu8 == byte_number & 0x1fu8) by (bit_vector);
    assert((0x60u8 | (byte_number & 0x1fu8)) & !0x1fu8 == 0x60u8) by (bit_vector);
}

/// The log went from `before` to `after`, with result `r`, as
/// [`Controller::write_config`] of a configuration with bits `bits` does.
pub open spec fn config_written(
    before: Seq<PortEvent>,
    after: Seq<PortEvent>,
    bits: u8,
    r: Result<(), ControllerError>,
) -> bool {
    let sends = seq![PortEvent::WriteCommand(WRITE_INTERNAL_RAM), PortEvent::WriteData(bits)];
    &&& offered(before, sends, after)
    &&& r == delivery(before, sends, after)
}

/// The log went from `before` to `after`, with result `r`, as
/// [`Controller::read_config`] does.
pub open spec fn config_read(
    before: Seq<PortEvent>,
    after: Seq<PortEvent>,
    non_blocking: bool,
    r: Result<ControllerConfig, ControllerError>,
) -> bool {
    let sends = seq![PortEvent::WriteCommand(READ_INTERNAL_RAM)];
    &&& exchanged(before, sends, after)
    &&& match reply(before, sends, after, non_blocking) {
        Ok(b) => r matches Ok(c) && c@ == b & ControllerConfig::ALL,
        Err(e) => r == Err::<ControllerConfig, ControllerError>(e),
    }
}

/// A configuration read back after it was written is the configuration
/// written: when [`Controller::write_config`] of `written` succeeded, taking
/// the log from `l0` to `l1`, and [`Controller::read_config`] then took it from
/// `l1` to `l2`, with the controller answering with the byte written, the
/// result is `written`, bit for bit. Every configuration has its undefined
/// bits clear, as [`ControllerConfig::bits`] ensures.
pub proof fn config_round_trip(
    l0: Seq<PortEvent>,
    l1: Seq<PortEvent>,
    l2: Seq<PortEvent>,
    non_blocking: bool,
    written: ControllerConfig,
    read_back: Result<ControllerConfig, ControllerError>,
)
    requires
        written@ & !ControllerConfig::ALL == 0,
        config_written(l0, l1, written@, Ok(())),
        config_read(l1, l2, non_blocking, read_back),
        reply(l1, seq![PortEvent::WriteCommand(READ_INTERNAL_RAM)], l2, non_blocking) == Ok::<u8, ControllerError>(
            l1.last()->WriteData_0,
        ),
    ensures
        l1.last() == PortEvent::WriteData(written@),
        read_back matches Ok(c) && c@ == written@,
{
    let sends = seq![PortEvent::WriteCommand(WRITE_INTERNAL_RAM), PortEvent::WriteData(written@)];
    assert(sends.take(2) =~= sends);
    assert(l1.last() == (l0 + sends).last());
    let w = written@;
    assert(w & !0b0111_0111u8 == 0 ==> w & 0b0111_0111u8 == w) by (bit_vector);
}

/// Whatever byte is read as the configuration, the bits that the layout leaves
/// undefined (3 and 7) are clear in the result.
pub proof fn config_undefined_bits_clear(raw: u8)
    ensures
        (raw & ControllerConfig::ALL) & 0b1000_1000 == 0,
{
    assert((raw & 0b0111_0111u8) & 0b1000_1000u8 == 0) by (bit_vector);
}

/// The transfers of a diagnostic dump, `true` for a read: the opcode, then
/// one read per internal RAM byte.
pub open spec fn dump_plan() -> Seq<bool> {
    seq![false] + Seq::new(32, |i: int| true)
}

/// The PS/2 controller, which owns the two registers through `P`.
///
/// Its history records every register access it made, in order; the contracts
/// speak of that record.
pub struct Controller<P: RegisterPort> {
    port: P,
    timeout: usize,
    non_blocking: bool,
    history: Ghost<Seq<PortEvent>>,
}

impl<P: RegisterPort> Controller<P> {
    /// Every register access made so far, in order.
    pub closed spec fn history(&self) -> Seq<PortEvent> {
        self.history@
    }

    /// Number of status polls after which a blocking wait gives up.
    pub closed spec fn timeout_bound(&self) -> nat {
        self.timeout as nat
    }

    /// Whether a wait for input polls once and gives up at once.
    pub closed spec fn non_blocking_mode(&self) -> bool {
        self.non_blocking
    }

    /// Every transfer of the history came right after a status read that
    /// allowed it.
    pub open spec fn wf(&self) -> bool {
        disciplined(self.history())
    }

    /// The transfers made so far: the history without its status reads.
    pub open spec fn log(&self) -> Seq<PortEvent> {
        transfers(self.history())
    }

    /// Number of status polls a wait for input makes before it gives up.
    pub open spec fn read_polls(&self) -> nat {
        if self.non_blocking_mode() {
            1
        } else {
            self.timeout_bound()
        }
    }

    /// `self` is well formed and has the settings of `before`.
    pub open spec fn continues(&self, before: &Self) -> bool {
        &&& self.wf()
        &&& self.timeout_bound() == before.timeout_bound()
        &&& self.non_blocking_mode() == before.non_blocking_mode()
        &&& before.history().len() <= self.history().len()
    }

    /// Since `before`, a wait for input gave up at the end of the history: its
    /// last [`Controller::read_polls`] status reads showed no byte to read.
    pub open spec fn read_gave_up(&self, before: &Self) -> bool {
        gave_up(before.history(), self.history(), self.read_polls(), PortEvent::ReadData(0))
    }

    /// Since `before`, a wait to write gave up at the end of the history: its
    /// last `timeout_bound()` status reads showed the input buffer full.
    pub open spec fn write_gave_up(&self, before: &Self) -> bool {
        gave_up(before.history(), self.history(), self.timeout_bound(), PortEvent::WriteData(0))
    }

    /// Since `before`, the history ended in a wait that gave up, and it was a
    /// wait for the transfer that `plan` holds next (`true` for a read, `false`
    /// for a write) after the transfers logged since `before`.
    pub open spec fn gave_up_in(&self, before: &Self, plan: Seq<bool>) -> bool {
        let k = self.log().len() - before.log().len();
        &&& 0 <= k < plan.len()
        &&& if plan[k] {
            self.read_gave_up(before)
        } else {
            self.write_gave_up(before)
        }
    }

    /// A controller on `port` that waits at most [`DEFAULT_TIMEOUT`] polls.
    pub fn new(port: P) -> (r: Self)
        ensures
            r.wf(),
            r.history() == Seq::<PortEvent>::empty(),
            r.timeout_bound() == DEFAULT_TIMEOUT,
            !r.non_blocking_mode(),
    {
        Self::with_timeout(port, DEFAULT_TIMEOUT)
    }

    /// A controller on `port` that waits at most `timeout` polls.
    pub fn with_timeout(port: P, timeout: usize) -> (r: Self)
        ensures
            r.wf(),
            r.history() == Seq::<PortEvent>::empty(),
            r.timeout_bound() == timeout,
            !r.non_blocking_mode(),
    {
        Controller { port, timeout, non_blocking: false, history: Ghost(Seq::empty()) }
    }

    /// Chooses whether a wait for input gives up after one poll
    /// ([`ControllerError::WouldBlock`]) rather than after the timeout.
    pub fn set_non_blocking(&mut self, non_blocking: bool)
        ensures
            final(self).history() == old(self).history(),
            final(self).timeout_bound() == old(self).timeout_bound(),
            final(self).non_blocking_mode() == non_blocking,
    {
        self.non_blocking = non_blocking;
    }

    fn poll_status(&mut self) -> (s: u8)
        requires
            old(self).wf(),
        ensures
            final(self).continues(old(self)),
            final(self).history() == old(self).history().push(PortEvent::ReadStatus(s)),
            final(self).log() == old(self).log(),
    {
        let s = self.port.read_byte(COMMAND_REGISTER);
        proof {
            lemma_transfers_push(self.history@, PortEvent::ReadStatus(s));
        }
        self.history = Ghost(self.history@.push(PortEvent::ReadStatus(s)));
        s
    }

    fn take_data(&mut self) -> (b: u8)
        requires
            old(self).wf(),
            old(self).history().len() > 0,
            old(self).history().last() is ReadStatus,
            permits(old(self).history().last()->ReadStatus_0, PortEvent::ReadData(0)),
        ensures
            final(self).continues(old(self)),
            final(self).history() == old(self).history().push(PortEvent::ReadData(b)),
            final(self).log() == old(self).log().push(PortEvent::ReadData(b)),
    {
        let b = self.port.read_byte(DATA_REGISTER);
        proof {
            lemma_transfers_push(self.history@, PortEvent::ReadData(b));
        }
        self.history = Ghost(self.history@.push(PortEvent::ReadData(b)));
        b
    }

    fn put(&mut self, address: u16, value: u8)
        requires
            old(self).wf(),
            address == DATA_REGISTER || address == COMMAND_REGISTER,
            old(self).history().len() > 0,
            old(self).history().last() is ReadStatus,
            permits(old(self).history().last()->ReadStatus_0, PortEvent::WriteData(0)),
        ensures
            final(self).continues(old(self)),
            final(self).history() == old(self).history().push(
                if address == DATA_REGISTER {
                    PortEvent::WriteData(value)
                } else {
                    PortEvent::WriteCommand(value)
                },
            ),
            final(self).log() == old(self).log().push(
                if address == DATA_REGISTER {
                    PortEvent::WriteData(value)
                } else {
                    PortEvent::WriteCommand(value)
                },
            ),
    {
        self.port.write_byte(address, value);
        let ghost event = if address == DATA_REGISTER {
            PortEvent::WriteData(value)
        } else {
            PortEvent::WriteCommand(value)
        };
        proof {
            lemma_transfers_push(self.history@, event);
        }
        self.history = Ghost(self.history@.push(event));
    }

    /// Reads the status register. This never fails.
    pub fn read_status(&mut self) -> (r: ControllerStatus)
        requires
            old(self).wf(),
        ensures
            final(self).continues(old(self)),
            final(self).history() == old(self).history().push(PortEvent::ReadStatus(r@)),
            final(self).log() == old(self).log(),
    {
        let s = self.poll_status();
        proof {
            assert(s & 0b1111_1111u8 == s) by (bit_vector);
        }
        ControllerStatus::from_bits_truncate(s)
    }

    fn wait_for_read(&mut self) -> (r: Result<(), ControllerError>)
        requires
            old(self).wf(),
        ensures
            final(self).continues(old(self)),
            final(self).log() == old(self).log(),
            old(self).history().is_prefix_of(final(self).history()),
            match r {
                Ok(()) => polled_until_ready(
                    old(self).history(),
                    final(self).history(),
                    old(self).read_polls(),
                    PortEvent::ReadData(0),
                ),
                Err(e) => {
                    &&& e == read_failure(old(self).non_blocking_mode())
                    &&& final(self).read_gave_up(old(self))
                    &&& final(self).history().len() == old(self).history().len() + old(self).read_polls()
                    &&& forall|i: int|
                        old(self).history().len() <= i < final(self).history().len() ==> {
                            &&& #[trigger] final(self).history()[i] is ReadStatus
                            &&& !permits(final(self).history()[i]->ReadStatus_0, PortEvent::ReadData(0))
                        }
                },
            },
    {
        if self.non_blocking {
            if self.read_status().contains(ControllerStatus::OUTPUT_FULL) {
                return Ok(());
            }
            return Err(ControllerError::WouldBlock);
        }
        let mut cycles: usize = 0;
        while cycles < self.timeout
            invariant
                self.continues(old(self)),
                !self.non_blocking,
                cycles <= self.timeout,
                self.log() == old(self).log(),
                self.history().len() == old(self).history().len() + cycles,
                old(self).history().is_prefix_of(self.history()),
                forall|i: int|
                    old(self).history().len() <= i < self.history().len() ==> {
                        &&& #[trigger] self.history()[i] is ReadStatus
                        &&& !permits(self.history()[i]->ReadStatus_0, PortEvent::ReadData(0))
                    },
            decreases self.timeout - cycles,
        {
            if self.read_status().contains(ControllerStatus::OUTPUT_FULL) {
                return Ok(());
            }
            cycles += 1;
        }
        Err(ControllerError::Timeout)
    }

    fn wait_for_write(&mut self) -> (r: Result<(), ControllerError>)
        requires
            old(self).wf(),
        ensures
            final(self).continues(old(self)),
            final(self).log() == old(self).log(),
            old(self).history().is_prefix_of(final(self).history()),
            match r {
                Ok(()) => polled_until_ready(
                    old(self).history(),
                    final(self).history(),
                    old(self).timeout_bound(),
                    PortEvent::WriteData(0),
                ),
                Err(e) => {
                    &&& e == ControllerError::Timeout
                    &&& final(self).write_gave_up(old(self))
                    &&& final(self).history().len() == old(self).history().len() + old(self).timeout_bound()
                    &&& forall|i: int|
                        old(self).history().len() <= i < final(self).history().len() ==> {
                            &&& #[trigger] final(self).history()[i] is ReadStatus
                            &&& !permits(final(self).history()[i]->ReadStatus_0, PortEvent::WriteData(0))
                        }
                },
            },
    {
        let mut cycles: usize = 0;
        while cycles < self.timeout
            invariant
                self.continues(old(self)),
                cycles <= self.timeout,
                self.log() == old(self).log(),
                self.history().len() == old(self).history().len() + cycles,
                old(self).history().is_prefix_of(self.history()),
                forall|i: int|
                    old(self).history().len() <= i < self.history().len() ==> {
                        &&& #[trigger] self.history()[i] is ReadStatus
                        &&& !permits(self.history()[i]->ReadStatus_0, PortEvent::WriteData(0))
                    },
            decreases self.timeout - cycles,
        {
            if !self.read_status().contains(ControllerStatus::INPUT_FULL) {
                return Ok(());
            }
            cycles += 1;
        }
        Err(ControllerError::Timeout)
    }

    /// Writes `command` to the command register once the controller takes input.
    pub(crate) fn write_command(&mut self, command: u8) -> (r: Result<(), ControllerError>)
        requires
            old(self).wf(),
        ensures
            final(self).continues(old(self)),
            issued(old(self).log(), final(self).log(), command, r),
            r is Err ==> final(self).write_gave_up(old(self)),
            r is Ok ==> {
                &&& final(self).history().last() == PortEvent::WriteCommand(command)
                &&& polled_until_ready(
                    old(self).history(),
                    final(self).history().drop_last(),
                    old(self).timeout_bound(),
                    PortEvent::WriteData(0),
                )
            },
    {
        self.wait_for_write()?;
        let ghost waited = self.history();
        self.put(COMMAND_REGISTER, command);
        proof {
            assert(self.history().drop_last() =~= waited);
        }
        Ok(())
    }

    /// Reads a byte from the data register once one is there.
    ///
    /// Fails with [`ControllerError::Timeout`] when none comes within the
    /// timeout, or at once with [`ControllerError::WouldBlock`] in non-blocking
    /// mode.
    pub fn read_data(&mut self) -> (r: Result<u8, ControllerError>)
        requires
            old(self).wf(),
        ensures
            final(self).continues(old(self)),
            match r {
                Ok(b) => {
                    &&& final(self).log() == old(self).log().push(PortEvent::ReadData(b))
                    &&& final(self).history().last() == PortEvent::ReadData(b)
                    &&& polled_until_ready(
                        old(self).history(),
                        final(self).history().drop_last(),
                        old(self).read_polls(),
                        PortEvent::ReadData(0),
                    )
                },
                Err(e) => {
                    &&& e == read_failure(old(self).non_blocking_mode())
                    &&& final(self).log() == old(self).log()
                    &&& final(self).read_gave_up(old(self))
                },
            },
    {
        self.wait_for_read()?;
        let ghost waited = self.history();
        let b = self.take_data();
        proof {
            assert(self.history().drop_last() =~= waited);
        }
        Ok(b)
    }

    /// Writes a byte to the data register once the controller takes input.
    ///
    /// Fails with [`ControllerError::Timeout`] when it does not within the timeout.
    pub fn write_data(&mut self, data: u8) -> (r: Result<(), ControllerError>)
        requires
            old(self).wf(),
        ensures
            final(self).continues(old(self)),
            match r {
                Ok(()) => {
                    &&& final(self).log() == old(self).log().push(PortEvent::WriteData(data))
                    &&& final(self).history().last() == PortEvent::WriteData(data)
                    &&& polled_until_ready(
                        old(self).history(),
                        final(self).history().drop_last(),
                        old(self).timeout_bound(),
                        PortEvent::WriteData(0),
                    )
                },
                Err(e) => {
                    &&& e == ControllerError::Timeout
                    &&& final(self).log() == old(self).log()
                    &&& final(self).write_gave_up(old(self))
                },
            },
    {
        self.wait_for_write()?;
        let ghost waited = self.history();
        self.put(DATA_REGISTER, data);
        proof {
            assert(self.history().drop_last() =~= waited);
        }
        Ok(())
    }

    /// Issues `command`, then reads the byte it answers with.
    fn command_then_read(&mut self, command: u8) -> (r: Result<u8, ControllerError>)
        requires
            old(self).wf(),
        ensures
            final(self).continues(old(self)),
            exchanged(old(self).log(), seq![PortEvent::WriteCommand(command)], final(self).log()),
            reply(
                old(self).log(),
                seq![PortEvent::WriteCommand(command)],
                final(self).log(),
                old(self).non_blocking_mode(),
            ) is Err
                ==> final(self).gave_up_in(old(self), seq![false, true]),
            r == reply(
                old(self).log(),
                seq![PortEvent::WriteCommand(command)],
                final(self).log(),
                old(self).non_blocking_mode(),
            ),
    {
        let ghost before = self.log();
        let ghost sends = seq![PortEvent::WriteCommand(command)];
        proof {
            assert(before + sends.take(0) =~= before);
            assert(before.push(PortEvent::WriteCommand(command)) =~= before + sends);
        }
        self.write_command(command)?;
        let b = self.read_data()?;
        proof {
            assert(self.log().drop_last() =~= before + sends);
        }
        Ok(b)
    }

    /// Issues `command`, then writes `data` as its argument.
    fn command_then_write(&mut self, command: u8, data: u8) -> (r: Result<(), ControllerError>)
        requires
            old(self).wf(),
        ensures
            final(self).continues(old(self)),
            offered(
                old(self).log(),
                seq![PortEvent::WriteCommand(command), PortEvent::WriteData(data)],
                final(self).log(),
            ),
            delivery(
                old(self).log(),
                seq![PortEvent::WriteCommand(command), PortEvent::WriteData(data)],
                final(self).log(),
            ) is Err
                ==> final(self).gave_up_in(old(self), seq![false, false]),
            r == delivery(
                old(self).log(),
                seq![PortEvent::WriteCommand(command), PortEvent::WriteData(data)],
                final(self).log(),
            ),
    {
        let ghost before = self.log();
        let ghost sends = seq![PortEvent::WriteCommand(command), PortEvent::WriteData(data)];
        proof {
            assert(before + sends.take(0) =~= before);
            assert(before.push(PortEvent::WriteCommand(command)) =~= before + sends.take(1));
            assert(before.push(PortEvent::WriteCommand(command)).push(PortEvent::WriteData(data))
                =~= before + sends.take(2));
        }
        self.write_command(command)?;
        self.write_data(data)?;
        Ok(())
    }

    /// A handle on the keyboard, which sends its bytes through this controller.
    pub fn keyboard(&mut self) -> (k: Keyboard<'_, P>)
        ensures
            *k.controller == *old(self),
            *final(self) == *final(k.controller),
    {
        Keyboard::new(self)
    }

    /// A handle on the mouse, which sends its bytes through this controller.
    pub fn mouse(&mut self) -> (m: Mouse<'_, P>)
        ensures
            *m.controller == *old(self),
            *final(self) == *final(m.controller),
    {
        Mouse::new(self)
    }

    /// Reads byte `byte_number` of the internal RAM; only the low five bits of
    /// `byte_number` are used. Byte 0 is the configuration byte.
    pub fn read_internal_ram(&mut self, byte_number: u8) -> (r: Result<u8, ControllerError>)
        requires
            old(self).wf(),
        ensures
            final(self).continues(old(self)),
            exchanged(
                old(self).log(),
                seq![PortEvent::WriteCommand(read_ram_opcode(byte_number))],
                final(self).log(),
            ),
            reply(
                old(self).log(),
                seq![PortEvent::WriteCommand(read_ram_opcode(byte_number))],
                final(self).log(),
                old(self).non_blocking_mode(),
            ) is Err
                ==> final(self).gave_up_in(old(self), seq![false, true]),
            r == reply(
                old(self).log(),
                seq![PortEvent::WriteCommand(read_ram_opcode(byte_number))],
                final(self).log(),
                old(self).non_blocking_mode(),
            ),
    {
        // The address is part of the opcode.
        let command = READ_INTERNAL_RAM | byte_number & INTERNAL_RAM_ADDRESS_MASK;
        self.command_then_read(command)
    }

    /// Writes `data` to byte `byte_number` of the internal RAM; only the low
    /// five bits of `byte_number` are used. Byte 0 is the configuration byte.
    pub fn write_internal_ram(&mut self, byte_number: u8, data: u8) -> (r: Result<(), ControllerError>)
        requires
            old(self).wf(),
        ensures
            final(self).continues(old(self)),
            offered(
                old(self).log(),
                seq![PortEvent::WriteCommand(write_ram_opcode(byte_number)), PortEvent::WriteData(data)],
                final(self).log(),
            ),
            delivery(
                old(self).log(),
                seq![PortEvent::WriteCommand(write_ram_opcode(byte_number)), PortEvent::WriteData(data)],
                final(self).log(),
            ) is Err
                ==> final(self).gave_up_in(old(self), seq![false, false]),
            r == delivery(
                old(self).log(),
                seq![PortEvent::WriteCommand(write_ram_opcode(byte_number)), PortEvent::WriteData(data)],
                final(self).log(),
            ),
    {
        // The address is part of the opcode.
        let command = WRITE_INTERNAL_RAM | byte_number & INTERNAL_RAM_ADDRESS_MASK;
        self.command_then_write(command, data)
    }

    /// Reads the configuration byte: byte 0 of the internal RAM.
    pub fn read_config(&mut self) -> (r: Result<ControllerConfig, ControllerError>)
        requires
            old(self).wf(),
        ensures
            final(self).continues(old(self)),
            config_read(old(self).log(), final(self).log(), old(self).non_blocking_mode(), r),
            r is Err ==> final(self).gave_up_in(old(self), seq![false, true]),
    {
        proof {
            assert(0x20u8 | (0u8 & 0x1fu8) == 0x20u8) by (bit_vector);
        }
        let b = self.read_internal_ram(0)?;
        Ok(ControllerConfig::from_bits_truncate(b))
    }

    /// Writes the configuration byte: byte 0 of the internal RAM.
    pub fn write_config(&mut self, config: ControllerConfig) -> (r: Result<(), ControllerError>)
        requires
            old(self).wf(),
        ensures
            final(self).continues(old(self)),
            config_written(old(self).log(), final(self).log(), config@, r),
            r is Err ==> final(self).gave_up_in(old(self), seq![false, false]),
    {
        proof {
            assert(0x60u8 | (0u8 & 0x1fu8) == 0x60u8) by (bit_vector);
        }
        self.write_internal_ram(0, config.bits())
    }

    /// Disables the mouse interface; the controller sets [`ControllerConfig::DISABLE_MOUSE`].
    pub fn disable_mouse(&mut self) -> (r: Result<(), ControllerError>)
        requires
            old(self).wf(),
        ensures
            final(self).continues(old(self)),
            issued(old(self).log(), final(self).log(), DISABLE_MOUSE, r),
            r is Err ==> final(self).write_gave_up(old(self)),
    {
        self.write_command(DISABLE_MOUSE)
    }

    /// Enables the mouse interface; the controller clears [`ControllerConfig::DISABLE_MOUSE`].
    pub fn enable_mouse(&mut self) -> (r: Result<(), ControllerError>)
        requires
            old(self).wf(),
        ensures
            final(self).continues(old(self)),
            issued(old(self).log(), final(self).log(), ENABLE_MOUSE, r),
            r is Err ==> final(self).write_gave_up(old(self)),
    {
        self.write_command(ENABLE_MOUSE)
    }

    /// Tests the mouse interface.
    ///
    /// Fails with [`ControllerError::TestFailed`], holding the reply, when the
    /// reply is not `INTERFACE_TEST_PASSED`.
    pub fn test_mouse(&mut self) -> (r: Result<(), ControllerError>)
        requires
            old(self).wf(),
        ensures
            final(self).continues(old(self)),
            exchanged(old(self).log(), seq![PortEvent::WriteCommand(TEST_MOUSE)], final(self).log()),
            reply(
                old(self).log(),
                seq![PortEvent::WriteCommand(TEST_MOUSE)],
                final(self).log(),
                old(self).non_blocking_mode(),
            ) is Err
                ==> final(self).gave_up_in(old(self), seq![false, true]),
            r == test_result(
                reply(
                    old(self).log(),
                    seq![PortEvent::WriteCommand(TEST_MOUSE)],
                    final(self).log(),
                    old(self).non_blocking_mode(),
                ),
                INTERFACE_TEST_PASSED,
            ),
    {
        match self.command_then_read(TEST_MOUSE) {
            Ok(INTERFACE_TEST_PASSED) => Ok(()),
            Ok(response) => Err(ControllerError::TestFailed { response }),
            Err(e) => Err(e),
        }
    }

    /// Runs the self-test of the controller.
    ///
    /// Fails with [`ControllerError::TestFailed`], holding the reply, when the
    /// reply is not `CONTROLLER_TEST_PASSED`.
    pub fn test_controller(&mut self) -> (r: Result<(), ControllerError>)
        requires
            old(self).wf(),
        ensures
            final(self).continues(old(self)),
            exchanged(old(self).log(), seq![PortEvent::WriteCommand(TEST_CONTROLLER)], final(self).log()),
            reply(
                old(self).log(),
                seq![PortEvent::WriteCommand(TEST_CONTROLLER)],
                final(self).log(),
                old(self).non_blocking_mode(),
            ) is Err
                ==> final(self).gave_up_in(old(self), seq![false, true]),
            r == test_result(
                reply(
                    old(self).log(),
                    seq![PortEvent::WriteCommand(TEST_CONTROLLER)],
                    final(self).log(),
                    old(self).non_blocking_mode(),
                ),
                CONTROLLER_TEST_PASSED,
            ),
    {
        match self.command_then_read(TEST_CONTROLLER) {
            Ok(CONTROLLER_TEST_PASSED) => Ok(()),
            Ok(response) => Err(ControllerError::TestFailed { response }),
            Err(e) => Err(e),
        }
    }

    /// Tests the keyboard interface.
    ///
    /// Fails with [`ControllerError::TestFailed`], holding the reply, when the
    /// reply is not `INTERFACE_TEST_PASSED`.
    pub fn test_keyboard(&mut self) -> (r: Result<(), ControllerError>)
        requires
            old(self).wf(),
        ensures
            final(self).continues(old(self)),
            exchanged(old(self).log(), seq![PortEvent::WriteCommand(TEST_KEYBOARD)], final(self).log()),
            reply(
                old(self).log(),
                seq![PortEvent::WriteCommand(TEST_KEYBOARD)],
                final(self).log(),
                old(self).non_blocking_mode(),
            ) is Err
                ==> final(self).gave_up_in(old(self), seq![false, true]),
            r == test_result(
                reply(
                    old(self).log(),
                    seq![PortEvent::WriteCommand(TEST_KEYBOARD)],
                    final(self).log(),
                    old(self).non_blocking_mode(),
                ),
                INTERFACE_TEST_PASSED,
            ),
    {
        match self.command_then_read(TEST_KEYBOARD) {
            Ok(INTERFACE_TEST_PASSED) => Ok(()),
            Ok(response) => Err(ControllerError::TestFailed { response }),
            Err(e) => Err(e),
        }
    }

    /// Dumps the internal RAM: the dump opcode, then one byte read per RAM
    /// location, in order.
    pub fn diagnostic_dump(&mut self) -> (r: Result<[u8; 32], ControllerError>)
        requires
            old(self).wf(),
        ensures
            final(self).continues(old(self)),
            match r {
                Ok(bytes) => final(self).log() == old(self).log().push(PortEvent::WriteCommand(DIAGNOSTIC_DUMP))
                    + reads_of(bytes@),
                Err(e) => {
                    ||| (e == ControllerError::Timeout && final(self).log() == old(self).log())
                    ||| {
                        &&& e == read_failure(old(self).non_blocking_mode())
                        &&& old(self).log().len() < final(self).log().len() <= old(self).log().len() + 32
                        &&& final(self).log().take(old(self).log().len() + 1int) == old(self).log().push(
                            PortEvent::WriteCommand(DIAGNOSTIC_DUMP),
                        )
                        &&& forall|i: int|
                            old(self).log().len() + 1 <= i < final(self).log().len()
                                ==> #[trigger] final(self).log()[i] is ReadData
                    }
                },
            },
            r is Err ==> final(self).gave_up_in(old(self), dump_plan()),
    {
        self.write_command(DIAGNOSTIC_DUMP)?;
        let ghost start = self.log();
        let mut result = [0u8; 32];
        let mut i: usize = 0;
        while i < INTERNAL_RAM_SIZE
            invariant
                self.continues(old(self)),
                i <= INTERNAL_RAM_SIZE,
                start == old(self).log().push(PortEvent::WriteCommand(DIAGNOSTIC_DUMP)),
                self.log() == start + reads_of(result@.take(i as int)),
            decreases INTERNAL_RAM_SIZE - i,
        {
            let ghost before = self.log();
            match self.read_data() {
                Ok(b) => {
                    result[i] = b;
                    proof {
                        assert(result@.take(i as int + 1) =~= result@.take(i as int).push(b));
                        assert(reads_of(result@.take(i as int + 1)) =~= reads_of(result@.take(i as int)).push(
                            PortEvent::ReadData(b),
                        ));
                        assert(self.log() =~= start + reads_of(result@.take(i as int + 1)));
                    }
                },
                Err(e) => {
                    proof {
                        assert(self.log().take(start.len() as int) =~= start);
                        assert(dump_plan()[i as int + 1]);
                    }
                    return Err(e);
                },
            }
            i += 1;
        }
        proof {
            assert(result@.take(32) =~= result@);
        }
        Ok(result)
    }

    /// Disables the keyboard interface; the controller sets [`ControllerConfig::DISABLE_KEYBOARD`].
    pub fn disable_keyboard(&mut self) -> (r: Result<(), ControllerError>)
        requires
            old(self).wf(),
        ensures
            final(self).continues(old(self)),
            issued(old(self).log(), final(self).log(), DISABLE_KEYBOARD, r),
            r is Err ==> final(self).write_gave_up(old(self)),
    {
        self.write_command(DISABLE_KEYBOARD)
    }

    /// Enables the keyboard interface; the controller clears [`ControllerConfig::DISABLE_KEYBOARD`].
    pub fn enable_keyboard(&mut self) -> (r: Result<(), ControllerError>)
        requires
            old(self).wf(),
        ensures
            final(self).continues(old(self)),
            issued(old(self).log(), final(self).log(), ENABLE_KEYBOARD, r),
            r is Err ==> final(self).write_gave_up(old(self)),
    {
        self.write_command(ENABLE_KEYBOARD)
    }

    /// Reads the input port.
    pub fn read_input_port(&mut self) -> (r: Result<ControllerInput, ControllerError>)
        requires
            old(self).wf(),
        ensures
            final(self).continues(old(self)),
            exchanged(old(self).log(), seq![PortEvent::WriteCommand(READ_INPUT_PORT)], final(self).log()),
            reply(
                old(self).log(),
                seq![PortEvent::WriteCommand(READ_INPUT_PORT)],
                final(self).log(),
                old(self).non_blocking_mode(),
            ) is Err
                ==> final(self).gave_up_in(old(self), seq![false, true]),
            match reply(
                old(self).log(),
                seq![PortEvent::WriteCommand(READ_INPUT_PORT)],
                final(self).log(),
                old(self).non_blocking_mode(),
            ) {
                Ok(b) => r matches Ok(v) && v@ == b & ControllerInput::ALL,
                Err(e) => r == Err::<ControllerInput, ControllerError>(e),
            },
    {
        let b = self.command_then_read(READ_INPUT_PORT)?;
        Ok(ControllerInput::from_bits_truncate(b))
    }

    /// Copies the low nibble of the input port to the low nibble of the status register.
    pub fn write_input_low_nibble_to_status(&mut self) -> (r: Result<(), ControllerError>)
        requires
            old(self).wf(),
        ensures
            final(self).continues(old(self)),
            issued(old(self).log(), final(self).log(), WRITE_LOW_INPUT_NIBBLE_TO_STATUS, r),
            r is Err ==> final(self).write_gave_up(old(self)),
    {
        self.write_command(WRITE_LOW_INPUT_NIBBLE_TO_STATUS)
    }

    /// Copies the high nibble of the input port to the high nibble of the status register.
    pub fn write_input_high_nibble_to_status(&mut self) -> (r: Result<(), ControllerError>)
        requires
            old(self).wf(),
        ensures
            final(self).continues(old(self)),
            issued(old(self).log(), final(self).log(), WRITE_HIGH_INPUT_NIBBLE_TO_STATUS, r),
            r is Err ==> final(self).write_gave_up(old(self)),
    {
        self.write_command(WRITE_HIGH_INPUT_NIBBLE_TO_STATUS)
    }

    /// Reads the output port.
    pub fn read_output_port(&mut self) -> (r: Result<ControllerOutput, ControllerError>)
        requires
            old(self).wf(),
        ensures
            final(self).continues(old(self)),
            exchanged(old(self).log(), seq![PortEvent::WriteCommand(READ_OUTPUT_PORT)], final(self).log()),
            reply(
                old(self).log(),
                seq![PortEvent::WriteCommand(READ_OUTPUT_PORT)],
                final(self).log(),
                old(self).non_blocking_mode(),
            ) is Err
                ==> final(self).gave_up_in(old(self), seq![false, true]),
            match reply(
                old(self).log(),
                seq![PortEvent::WriteCommand(READ_OUTPUT_PORT)],
                final(self).log(),
                old(self).non_blocking_mode(),
            ) {
                Ok(b) => r matches Ok(v) && v@ == b & ControllerOutput::ALL,
                Err(e) => r == Err::<ControllerOutput, ControllerError>(e),
            },
    {
        let b = self.command_then_read(READ_OUTPUT_PORT)?;
        Ok(ControllerOutput::from_bits_truncate(b))
    }

    /// Writes the output port.
    pub fn write_output_port(&mut self, output: ControllerOutput) -> (r: Result<(), ControllerError>)
        requires
            old(self).wf(),
        ensures
            final(self).continues(old(self)),
            offered(
                old(self).log(),
                seq![PortEvent::WriteCommand(WRITE_OUTPUT_PORT), PortEvent::WriteData(output@)],
                final(self).log(),
            ),
            delivery(
                old(self).log(),
                seq![PortEvent::WriteCommand(WRITE_OUTPUT_PORT), PortEvent::WriteData(output@)],
                final(self).log(),
            ) is Err
                ==> final(self).gave_up_in(old(self), seq![false, false]),
            r == delivery(
                old(self).log(),
                seq![PortEvent::WriteCommand(WRITE_OUTPUT_PORT), PortEvent::WriteData(output@)],
                final(self).log(),
            ),
    {
        self.command_then_write(WRITE_OUTPUT_PORT, output.bits())
    }

    /// Puts `data` in the output buffer as if the keyboard had sent it.
    ///
    /// This raises an interrupt when keyboard interrupts are enabled.
    pub fn write_keyboard_buffer(&mut self, data: u8) -> (r: Result<(), ControllerError>)
        requires
            old(self).wf(),
        ensures
            final(self).continues(old(self)),
            offered(
                old(self).log(),
                seq![PortEvent::WriteCommand(WRITE_KEYBOARD_BUFFER), PortEvent::WriteData(data)],
                final(self).log(),
            ),
            delivery(
                old(self).log(),
                seq![PortEvent::WriteCommand(WRITE_KEYBOARD_BUFFER), PortEvent::WriteData(data)],
                final(self).log(),
            ) is Err
                ==> final(self).gave_up_in(old(self), seq![false, false]),
            r == delivery(
                old(self).log(),
                seq![PortEvent::WriteCommand(WRITE_KEYBOARD_BUFFER), PortEvent::WriteData(data)],
                final(self).log(),
            ),
    {
        self.command_then_write(WRITE_KEYBOARD_BUFFER, data)
    }

    /// Puts `data` in the output buffer as if the mouse had sent it.
    ///
    /// This raises an interrupt when mouse interrupts are enabled.
    pub fn write_mouse_buffer(&mut self, data: u8) -> (r: Result<(), ControllerError>)
        requires
            old(self).wf(),
        ensures
            final(self).continues(old(self)),
            offered(
                old(self).log(),
                seq![PortEvent::WriteCommand(WRITE_MOUSE_BUFFER), PortEvent::WriteData(data)],
                final(self).log(),
            ),
            delivery(
                old(self).log(),
                seq![PortEvent::WriteCommand(WRITE_MOUSE_BUFFER), PortEvent::WriteData(data)],
                final(self).log(),
            ) is Err
                ==> final(self).gave_up_in(old(self), seq![false, false]),
            r == delivery(
                old(self).log(),
                seq![PortEvent::WriteCommand(WRITE_MOUSE_BUFFER), PortEvent::WriteData(data)],
                final(self).log(),
            ),
    {
        self.command_then_write(WRITE_MOUSE_BUFFER, data)
    }

    /// Sends `data` to the mouse rather than to the keyboard.
    pub fn write_mouse(&mut self, data: u8) -> (r: Result<(), ControllerError>)
        requires
            old(self).wf(),
        ensures
            final(self).continues(old(self)),
            offered(
                old(self).log(),
                seq![PortEvent::WriteCommand(WRITE_MOUSE), PortEvent::WriteData(data)],
                final(self).log(),
            ),
            delivery(
                old(self).log(),
                seq![PortEvent::WriteCommand(WRITE_MOUSE), PortEvent::WriteData(data)],
                final(self).log(),
            ) is Err
                ==> final(self).gave_up_in(old(self), seq![false, false]),
            r == delivery(
                old(self).log(),
                seq![PortEvent::WriteCommand(WRITE_MOUSE), PortEvent::WriteData(data)],
                final(self).log(),
            ),
    {
        self.command_then_write(WRITE_MOUSE, data)
    }

    /// Reads the test port, as the raw byte.
    pub fn read_test_port(&mut self) -> (r: Result<u8, ControllerError>)
        requires
            old(self).wf(),
        ensures
            final(self).continues(old(self)),
            exchanged(old(self).log(), seq![PortEvent::WriteCommand(READ_TEST_PORT)], final(self).log()),
            reply(
                old(self).log(),
                seq![PortEvent::WriteCommand(READ_TEST_PORT)],
                final(self).log(),
                old(self).non_blocking_mode(),
            ) is Err
                ==> final(self).gave_up_in(old(self), seq![false, true]),
            r == reply(
                old(self).log(),
                seq![PortEvent::WriteCommand(READ_TEST_PORT)],
                final(self).log(),
                old(self).non_blocking_mode(),
            ),
    {
        self.command_then_read(READ_TEST_PORT)
    }

    /// Pulses the output lines selected by the low nibble of `data`: the
    /// opcode is the pulse opcode, whose high nibble is all ones, with the low
    /// nibble of `data`.
    pub fn pulse_output_low_nibble(&mut self, data: u8) -> (r: Result<(), ControllerError>)
        requires
            old(self).wf(),
        ensures
            final(self).continues(old(self)),
            issued(old(self).log(), final(self).log(), PULSE_OUTPUT | (data & PULSE_LINE_MASK), r),
            r is Err ==> final(self).write_gave_up(old(self)),
    {
        // The high nibble of the pulse opcode is all ones already.
        let command = PULSE_OUTPUT | data;
        proof {
            assert(0xf0u8 | data == 0xf0u8 | (data & 0x0fu8)) by (bit_vector);
        }
        self.write_command(command)
    }
}

} // verus!
