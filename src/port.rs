//! The two registers of the controller, the capability that reads and writes
//! them, and the record of port traffic that the contracts of this crate are
//! stated over.
use vstd::prelude::*;

verus! {

/// Address of the data register: bytes to and from the devices, and the
/// arguments and results of controller commands.
pub const DATA_REGISTER: u16 = 0x60;

/// Address of the command register: reading it yields the status byte, writing
/// it issues a controller command.
pub const COMMAND_REGISTER: u16 = 0x64;

/// Status bit: the data register holds a byte to be read.
pub const STATUS_OUTPUT_FULL: u8 = 0b0000_0001;

/// Status bit: the controller has not yet taken the last byte written to it.
pub const STATUS_INPUT_FULL: u8 = 0b0000_0010;

/// Single-byte access to the two registers of the controller.
///
/// An implementation performs one bus cycle per call, with no buffering and no
/// waiting. Each call that the controller makes is recorded in its history as
/// a [`PortEvent`].
pub trait RegisterPort {
    /// Reads one byte from the register at `address`.
    fn read_byte(&mut self, address: u16) -> u8
        requires
            address == DATA_REGISTER || address == COMMAND_REGISTER,
    ;

    /// Writes `value` to the register at `address`.
    fn write_byte(&mut self, address: u16, value: u8)
        requires
            address == DATA_REGISTER || address == COMMAND_REGISTER,
    ;
}

/// One access to a register, with the byte that was read or written.
#[derive(Clone, Copy, Debug, PartialEq, Eq)]
pub enum PortEvent {
    /// The status byte was read from the command register.
    ReadStatus(u8),
    /// A byte was written to the command register.
    WriteCommand(u8),
    /// A byte was read from the data register.
    ReadData(u8),
    /// A byte was written to the data register.
    WriteData(u8),
}

/// Whether a status byte with value `status` allows the transfer `event`: a read
/// needs a full output buffer, a write an input buffer that is not full.
pub open spec fn permits(status: u8, event: PortEvent) -> bool {
    match event {
        PortEvent::ReadData(_) => status & STATUS_OUTPUT_FULL == STATUS_OUTPUT_FULL,
        PortEvent::WriteData(_) => status & STATUS_INPUT_FULL != STATUS_INPUT_FULL,
        PortEvent::WriteCommand(_) => status & STATUS_INPUT_FULL != STATUS_INPUT_FULL,
        PortEvent::ReadStatus(_) => true,
    }
}

/// Every transfer in `history` comes right after a status read that permits it.
pub open spec fn disciplined(history: Seq<PortEvent>) -> bool {
    forall|i: int|
        0 <= i < history.len() && !(#[trigger] history[i] is ReadStatus) ==> {
            &&& 0 < i
            &&& history[i - 1] is ReadStatus
            &&& permits(history[i - 1]->ReadStatus_0, history[i])
        }
}

/// The transfers of `history`, in order: every event but the status reads.
pub open spec fn transfers(history: Seq<PortEvent>) -> Seq<PortEvent>
    decreases history.len(),
{
    if history.len() == 0 {
        Seq::empty()
    } else if history.last() is ReadStatus {
        transfers(history.drop_last())
    } else {
        transfers(history.drop_last()).push(history.last())
    }
}

/// A status read adds no transfer; any other event adds itself.
pub proof fn lemma_transfers_push(history: Seq<PortEvent>, event: PortEvent)
    ensures
        transfers(history.push(event)) == if event is ReadStatus {
            transfers(history)
        } else {
            transfers(history).push(event)
        },
{
    assert(history.push(event).drop_last() =~= history);
}

/// A transfer attempt that failed: the failure a wait for input reports, in
/// blocking or in non-blocking mode.
pub open spec fn read_failure(non_blocking: bool) -> crate::error::ControllerError {
    if non_blocking {
        crate::error::ControllerError::WouldBlock
    } else {
        crate::error::ControllerError::Timeout
    }
}

/// `after` extends the log `before` by a prefix of the writes `sends`: the
/// writes were offered in turn until one was not accepted in time.
pub open spec fn offered(before: Seq<PortEvent>, sends: Seq<PortEvent>, after: Seq<PortEvent>) -> bool {
    &&& before.len() <= after.len() <= before.len() + sends.len()
    &&& after == before + sends.take(after.len() - before.len())
}

/// The result of offering `sends` with nothing to read back: success when every
/// write was accepted.
pub open spec fn delivery(before: Seq<PortEvent>, sends: Seq<PortEvent>, after: Seq<PortEvent>) -> Result<
    (),
    crate::error::ControllerError,
> {
    if after.len() == before.len() + sends.len() {
        Ok(())
    } else {
        Err(crate::error::ControllerError::Timeout)
    }
}

/// `after` extends the log `before` by an exchange: the writes `sends` were
/// offered in turn, and once all were accepted one reply byte was awaited.
pub open spec fn exchanged(before: Seq<PortEvent>, sends: Seq<PortEvent>, after: Seq<PortEvent>) -> bool {
    ||| (after.len() < before.len() + sends.len() && offered(before, sends, after))
    ||| after == before + sends
    ||| {
        &&& after.len() == before.len() + sends.len() + 1
        &&& after.drop_last() == before + sends
        &&& after.last() is ReadData
    }
}

/// The outcome of an exchange that left the log `after`: the reply byte, or why
/// there was none.
pub open spec fn reply(
    before: Seq<PortEvent>,
    sends: Seq<PortEvent>,
    after: Seq<PortEvent>,
    non_blocking: bool,
) -> Result<u8, crate::error::ControllerError> {
    if after.len() < before.len() + sends.len() {
        Err(crate::error::ControllerError::Timeout)
    } else if after.len() == before.len() + sends.len() {
        Err(read_failure(non_blocking))
    } else {
        Ok(after.last()->ReadData_0)
    }
}

/// `after` extends the log `before` by `n` reads of the data register.
pub open spec fn extended_by_reads(before: Seq<PortEvent>, after: Seq<PortEvent>, n: nat) -> bool {
    &&& after.len() == before.len() + n
    &&& after.take(before.len() as int) == before
    &&& forall|i: int| before.len() <= i < after.len() ==> #[trigger] after[i] is ReadData
}

/// The byte of the `i`-th read after the log `before`, in the log `after`.
pub open spec fn byte_read(before: Seq<PortEvent>, after: Seq<PortEvent>, i: int) -> u8 {
    after[before.len() + i]->ReadData_0
}

/// A wait for the transfer `pending` gave up at the end of `after`: since the
/// history `before`, at least `polls` events were added, and the last `polls`
/// of them are status reads, none of which permits `pending`.
pub open spec fn gave_up(before: Seq<PortEvent>, after: Seq<PortEvent>, polls: nat, pending: PortEvent) -> bool {
    &&& before.len() + polls <= after.len()
    &&& forall|i: int|
        after.len() - polls <= i < after.len() ==> {
            &&& #[trigger] after[i] is ReadStatus
            &&& !permits(after[i]->ReadStatus_0, pending)
        }
}

/// `after` extends `before` by a wait for the transfer `pending` that
/// succeeded: at least one and at most `polls` status reads, of which only the
/// last permits `pending`.
pub open spec fn polled_until_ready(
    before: Seq<PortEvent>,
    after: Seq<PortEvent>,
    polls: nat,
    pending: PortEvent,
) -> bool {
    &&& before.is_prefix_of(after)
    &&& before.len() < after.len() <= before.len() + polls
    &&& forall|i: int|
        before.len() <= i < after.len() ==> {
            &&& #[trigger] after[i] is ReadStatus
            &&& (permits(after[i]->ReadStatus_0, pending) <==> i == after.len() - 1)
        }
}

} // verus!
