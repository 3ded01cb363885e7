//! Procedures: what the driver wants done on the hardware, one access at a time.
//!
//! A procedure stands at a stage. The stage determines the one access the
//! driver is waiting for ([`RfcProcedure::action`]); the outcome of that access
//! moves the procedure on ([`RfcProcedure::resume`]). The caller performs the
//! accesses, so a wait on the hardware is a loop of the caller's, never one in
//! here.
//!
//! ```text
//! let mut procedure = core.enable();
//! loop {
//!     match procedure.action() {
//!         RfcAction::Complete(result) => break result,
//!         RfcAction::Halt(fault) => halt(fault),
//!         access => procedure.resume(perform(access)),
//!     }
//! }
//! ```

use crate::rfc_commands::{
    direct_word, DirectCommand, RfcCommand, RfcCommandRadioSetup, RfcCommandStartRat,
};
use vstd::prelude::*;

verus! {

/// Opcode of the direct command that opens the bring-up.
pub const RFC_CMD0: u16 = 0x0607;

/// Opcode of the direct command that proves the coprocessor alive.
pub const RFC_PING: u16 = 0x0406;

/// Opcode of the direct command that requests the system bus.
pub const RFC_BUS_REQUEST: u16 = 0x040E;

/// Opcode of the radio operation that starts the radio timer.
pub const RFC_START_RAT_TIMER: u16 = 0x080A;

/// Opcode of the radio operation that sets the radio up.
pub const RFC_SETUP: u16 = 0x0802;

/// Power-control bit of the main module.
pub const RFC_PWR_RFC: u32 = 0x01;

/// Power-control bit of the command and packet engine.
pub const RFC_PWR_CPE: u32 = 0x02;

/// Power-control bit of the RAM of the command and packet engine.
pub const RFC_PWR_CPERAM: u32 = 0x04;

/// Power-control bit of the modem.
pub const RFC_PWR_MDM: u32 = 0x08;

/// Power-control bit of the modem's RAM.
pub const RFC_PWR_MDMRAM: u32 = 0x10;

/// Power-control bit of the RF engine.
pub const RFC_PWR_RFE: u32 = 0x20;

/// Power-control bit of the RF engine's RAM.
pub const RFC_PWR_RFERAM: u32 = 0x40;

/// Power-control bit of the radio timer.
pub const RFC_PWR_RAT: u32 = 0x80;

/// Power-control bit of the packet-handling accelerator.
pub const RFC_PWR_PHA: u32 = 0x100;

/// Power-control bit of the frequency-synthesizer calibration accelerator.
pub const RFC_PWR_FSCA: u32 = 0x200;

/// What the bring-up writes to the power-control register: every module on.
pub const RFC_PWR_ALL: u32 = RFC_PWR_RFC | RFC_PWR_CPE | RFC_PWR_CPERAM | RFC_PWR_FSCA
    | RFC_PWR_PHA | RFC_PWR_RAT | RFC_PWR_RFE | RFC_PWR_RFERAM | RFC_PWR_MDM | RFC_PWR_MDMRAM;

/// Completion flag: the coprocessor met an internal error.
pub const INTERNAL_ERROR: u32 = 0x8000_0000;

/// Completion flag: the coprocessor has booted.
pub const BOOT_DONE: u32 = 0x4000_0000;

/// Completion flag: a command has run to its end.
pub const COMMAND_DONE: u32 = 0x0000_0001;

/// The completion interrupts that the bring-up enables.
pub const ENABLED_INTERRUPTS: u32 = INTERNAL_ERROR | COMMAND_DONE | BOOT_DONE;

/// The submodule that power and clock are routed to for BLE.
pub const BLE_SUBMODULE: u32 = 0x01;

/// Parameter of the command that opens the bring-up.
pub const CMD0_PARAMETER: u16 = 0x10 | 0x40;

/// How many times the status register is read for one command before the
/// command counts as not acknowledged.
pub const MAX_TIMEOUT: u32 = 0x2FF_FFFF;

/// A status word whose low byte says that the command was accepted.
pub open spec fn accepted(status: u32) -> bool {
    status & 0xFF == 0x01
}

/// Outcome of handing one command to the coprocessor.
#[derive(Clone, Copy, Debug, PartialEq, Eq)]
pub enum RfcResult {
    /// The coprocessor accepted the command.
    Success,
    /// It did not within the bound; the value is the status word read last.
    Error(u32),
}

/// A condition after which the system must not go on.
#[derive(Clone, Copy, Debug, PartialEq, Eq)]
pub enum RfcFault {
    /// A command was to be sent while the power domain reported itself off.
    PowerDomainOff,
    /// The radio was to be set up before a mode was selected.
    NoModeSelected,
    /// A mode other than BLE was asked for.
    UnsupportedMode,
    /// A command that had to succeed was not acknowledged.
    CommandRejected { command: u32, status: u32 },
    /// The coprocessor raised its internal-error interrupt.
    InternalError,
    /// An interrupt arrived on a vector that nothing is assigned to.
    UnhandledInterrupt,
    /// The caller reported the outcome of another access than the one awaited.
    UnexpectedReply,
}

/// One access to the hardware, or the end of a procedure.
#[derive(Clone, Copy, Debug, PartialEq, Eq)]
pub enum RfcAction {
    /// Switch the coprocessor's power domain on.
    EnablePowerDomain,
    /// Switch the coprocessor's clock on.
    EnableClock,
    /// Ask whether the power domain is up; answered by [`RfcReply::Power`].
    QueryPower,
    /// Let the real-time clock propagate its updates to the coprocessor.
    EnableRtcSync,
    /// Route power and clock to a submodule.
    SelectSubmodule(u32),
    /// Write the power-control register.
    WritePowerControl(u32),
    /// Write the acknowledgment-interrupt flag.
    WriteAckFlag(u32),
    /// Write the register that picks a vector for each completion interrupt.
    WriteVectorSelect(u32),
    /// Write the completion-interrupt enable register.
    WriteInterruptEnable(u32),
    /// Write the completion-interrupt flags.
    WriteInterruptFlags(u32),
    /// Read the completion-interrupt flags; answered by [`RfcReply::Flags`].
    ReadInterruptFlags,
    /// Read the command register; answered by [`RfcReply::Command`].
    ReadCommand,
    /// Write the command register.
    WriteCommand(u32),
    /// Read the status register; answered by [`RfcReply::Status`].
    ReadStatus,
    /// Put the record where the coprocessor can read it; answered by
    /// [`RfcReply::Address`].
    PlaceRadioSetup(RfcCommandRadioSetup),
    /// Put the record where the coprocessor can read it; answered by
    /// [`RfcReply::Address`].
    PlaceStartRat(RfcCommandStartRat),
    /// Tell the registered client that a command is done.
    NotifyClient,
    /// The procedure is over.
    Complete(RfcResult),
    /// The procedure is over and the system must halt.
    Halt(RfcFault),
}

/// What the caller reports after an access.
#[derive(Clone, Copy, Debug, PartialEq, Eq)]
pub enum RfcReply {
    /// The access is made and had nothing to return.
    Done,
    /// Whether the power domain is up.
    Power(bool),
    /// The command register as read.
    Command(u32),
    /// The status register as read.
    Status(u32),
    /// The completion-interrupt flags as read.
    Flags(u32),
    /// The address at which the record now lies.
    Address(u32),
}

/// Where a procedure stands.
#[derive(Clone, Copy, Debug, PartialEq, Eq)]
pub enum RfcStage {
    /// Bring-up: the power domain is being switched on.
    PowerDomain,
    /// Bring-up: the clock is being switched on.
    Clock,
    /// Bring-up: waiting for the power domain to come up.
    AwaitPower,
    /// Bring-up: the real-time clock is being told to synchronise.
    RtcSync,
    /// Bring-up: the power-control register is being written.
    PowerControl,
    /// Bring-up: a stale acknowledgment flag is being cleared.
    AckFlag,
    /// Bring-up: the internal-error interrupt is being given its own vector.
    VectorSelect,
    /// Bring-up: the completion interrupts are being enabled.
    InterruptEnable,
    /// Bring-up: stale completion flags are being cleared.
    InterruptFlags,
    /// Mode selection: power is being routed to the submodule.
    Submodule,
    /// The setup record is being placed in memory.
    PlaceRadioSetup(RfcCommandRadioSetup),
    /// The timer record is being placed in memory.
    PlaceStartRat(RfcCommandStartRat),
    /// Transfer: the power domain is being checked.
    CheckPower,
    /// Transfer: waiting for the command register to read zero.
    AwaitClear,
    /// Transfer: the command word is being written.
    Write,
    /// Transfer: waiting for the status register to acknowledge.
    Poll,
    /// Interrupt: the acknowledgment flag is being cleared.
    AckInterrupt,
    /// Interrupt: the completion flags are being read.
    ReadFlags,
    /// Interrupt: the completion flags are being cleared; the client hears of
    /// it afterwards if the value is true.
    ClearFlags(bool),
    /// Interrupt: the client is being told.
    Notify,
    /// Interrupt: all completion flags are being cleared after an internal
    /// error; the fault follows.
    ErrorFlags,
    /// Over.
    Finished(RfcResult),
    /// Over, with a fault.
    Halted(RfcFault),
}

/// A procedure in progress.
#[derive(Clone, Copy, Debug, PartialEq, Eq)]
pub struct RfcProcedure {
    /// Where the procedure stands.
    pub stage: RfcStage,
    /// The command word of the transfer in hand.
    pub word: u32,
    /// Whether a command that is not acknowledged is a fault.
    pub ensure: bool,
    /// How many status reads of the transfer in hand did not acknowledge.
    pub polls: u32,
    /// How many bring-up commands follow the transfer in hand.
    pub queued: u8,
}

/// The bring-up command to send when `remaining` of them are still to go: the
/// opening command, then the bus request, then the ping.
pub open spec fn bring_up_word(remaining: u8) -> u32 {
    if remaining == 1 {
        direct_word(RFC_PING, 0)
    } else if remaining == 2 {
        direct_word(RFC_BUS_REQUEST, 1)
    } else {
        direct_word(RFC_CMD0, CMD0_PARAMETER)
    }
}

fn bring_up_command(remaining: u8) -> (word: u32)
    ensures
        word == bring_up_word(remaining),
{
    let command = if remaining == 1 {
        DirectCommand::new(RFC_PING, 0)
    } else if remaining == 2 {
        DirectCommand::new(RFC_BUS_REQUEST, 1)
    } else {
        DirectCommand::new(RFC_CMD0, CMD0_PARAMETER)
    };
    command.direct_command()
}

impl RfcProcedure {
    /// A procedure at `stage` that has no transfer in hand yet.
    pub open spec fn starting(stage: RfcStage) -> RfcProcedure {
        RfcProcedure { stage, word: 0, ensure: true, polls: 0, queued: 0 }
    }

    /// The transfer of one command word, from its first step, with `queued`
    /// bring-up commands to follow it.
    pub open spec fn transfer(word: u32, ensure: bool, queued: u8) -> RfcProcedure {
        RfcProcedure { stage: RfcStage::CheckPower, word, ensure, polls: 0, queued }
    }

    /// This procedure moved to `stage`.
    pub open spec fn at(self, stage: RfcStage) -> RfcProcedure {
        RfcProcedure { stage, ..self }
    }

    /// Whether the procedure is over.
    pub open spec fn is_over(self) -> bool {
        self.stage is Finished || self.stage is Halted
    }

    /// The access that the procedure is waiting for.
    pub open spec fn awaits(self) -> RfcAction {
        match self.stage {
            RfcStage::PowerDomain => RfcAction::EnablePowerDomain,
            RfcStage::Clock => RfcAction::EnableClock,
            RfcStage::AwaitPower => RfcAction::QueryPower,
            RfcStage::RtcSync => RfcAction::EnableRtcSync,
            RfcStage::PowerControl => RfcAction::WritePowerControl(RFC_PWR_ALL),
            RfcStage::AckFlag => RfcAction::WriteAckFlag(0),
            RfcStage::VectorSelect => RfcAction::WriteVectorSelect(INTERNAL_ERROR),
            RfcStage::InterruptEnable => RfcAction::WriteInterruptEnable(ENABLED_INTERRUPTS),
            RfcStage::InterruptFlags => RfcAction::WriteInterruptFlags(0),
            RfcStage::Submodule => RfcAction::SelectSubmodule(BLE_SUBMODULE),
            RfcStage::PlaceRadioSetup(record) => RfcAction::PlaceRadioSetup(record),
            RfcStage::PlaceStartRat(record) => RfcAction::PlaceStartRat(record),
            RfcStage::CheckPower => RfcAction::QueryPower,
            RfcStage::AwaitClear => RfcAction::ReadCommand,
            RfcStage::Write => RfcAction::WriteCommand(self.word),
            RfcStage::Poll => RfcAction::ReadStatus,
            RfcStage::AckInterrupt => RfcAction::WriteAckFlag(0),
            RfcStage::ReadFlags => RfcAction::ReadInterruptFlags,
            RfcStage::ClearFlags(_) => RfcAction::WriteInterruptFlags(0),
            RfcStage::Notify => RfcAction::NotifyClient,
            RfcStage::ErrorFlags => RfcAction::WriteInterruptFlags(0),
            RfcStage::Finished(result) => RfcAction::Complete(result),
            RfcStage::Halted(fault) => RfcAction::Halt(fault),
        }
    }

    /// The procedure after a status read of the transfer in hand.
    ///
    /// An accepting status ends the transfer: the next bring-up command begins
    /// if one is queued, else the procedure is finished. Any other status counts
    /// as one more poll; with the last poll that the bound allows the transfer
    /// fails with the status just read.
    pub open spec fn polled(self, status: u32) -> RfcProcedure {
        if accepted(status) {
            if self.queued > 0 {
                Self::transfer(
                    bring_up_word(self.queued),
                    self.ensure,
                    (self.queued - 1) as u8,
                )
            } else {
                self.at(RfcStage::Finished(RfcResult::Success))
            }
        } else if self.polls + 1 < MAX_TIMEOUT {
            RfcProcedure { polls: (self.polls + 1) as u32, ..self }
        } else if self.ensure {
            self.at(
                RfcStage::Halted(RfcFault::CommandRejected { command: self.word, status }),
            )
        } else {
            self.at(RfcStage::Finished(RfcResult::Error(status)))
        }
    }

    /// The procedure after the awaited access had the outcome `reply`.
    ///
    /// A procedure that is over stays as it is. A reply of another kind than
    /// the awaited access gives is a fault.
    pub open spec fn after(self, reply: RfcReply) -> RfcProcedure {
        match (self.stage, reply) {
            (RfcStage::Finished(_), _) => self,
            (RfcStage::Halted(_), _) => self,
            (RfcStage::PowerDomain, RfcReply::Done) => self.at(RfcStage::Clock),
            (RfcStage::Clock, RfcReply::Done) => self.at(RfcStage::AwaitPower),
            (RfcStage::AwaitPower, RfcReply::Power(up)) => if up {
                self.at(RfcStage::RtcSync)
            } else {
                self
            },
            (RfcStage::RtcSync, RfcReply::Done) => self.at(RfcStage::PowerControl),
            (RfcStage::PowerControl, RfcReply::Done) => self.at(RfcStage::AckFlag),
            (RfcStage::AckFlag, RfcReply::Done) => self.at(RfcStage::VectorSelect),
            (RfcStage::VectorSelect, RfcReply::Done) => self.at(RfcStage::InterruptEnable),
            (RfcStage::InterruptEnable, RfcReply::Done) => self.at(RfcStage::InterruptFlags),
            (RfcStage::InterruptFlags, RfcReply::Done) => Self::transfer(
                bring_up_word(3),
                true,
                2,
            ),
            (RfcStage::Submodule, RfcReply::Done) => self.at(
                RfcStage::Finished(RfcResult::Success),
            ),
            (RfcStage::PlaceRadioSetup(_), RfcReply::Address(address)) => Self::transfer(
                address,
                true,
                0,
            ),
            (RfcStage::PlaceStartRat(_), RfcReply::Address(address)) => Self::transfer(
                address,
                true,
                0,
            ),
            (RfcStage::CheckPower, RfcReply::Power(up)) => if up {
                self.at(RfcStage::AwaitClear)
            } else {
                self.at(RfcStage::Halted(RfcFault::PowerDomainOff))
            },
            (RfcStage::AwaitClear, RfcReply::Command(value)) => if value == 0 {
                self.at(RfcStage::Write)
            } else {
                self
            },
            (RfcStage::Write, RfcReply::Done) => RfcProcedure {
                stage: RfcStage::Poll,
                polls: 0,
                ..self
            },
            (RfcStage::Poll, RfcReply::Status(status)) => self.polled(status),
            (RfcStage::AckInterrupt, RfcReply::Done) => self.at(
                RfcStage::Finished(RfcResult::Success),
            ),
            (RfcStage::ReadFlags, RfcReply::Flags(flags)) => self.at(
                RfcStage::ClearFlags(flags & COMMAND_DONE != 0),
            ),
            (RfcStage::ClearFlags(notify), RfcReply::Done) => if notify {
                self.at(RfcStage::Notify)
            } else {
                self.at(RfcStage::Finished(RfcResult::Success))
            },
            (RfcStage::Notify, RfcReply::Done) => self.at(RfcStage::Finished(RfcResult::Success)),
            (RfcStage::ErrorFlags, RfcReply::Done) => self.at(
                RfcStage::Halted(RfcFault::InternalError),
            ),
            _ => self.at(RfcStage::Halted(RfcFault::UnexpectedReply)),
        }
    }

    /// The access to perform next, or how the procedure ended.
    pub fn action(&self) -> (action: RfcAction)
        ensures
            action == self.awaits(),
    {
        match self.stage {
            RfcStage::PowerDomain => RfcAction::EnablePowerDomain,
            RfcStage::Clock => RfcAction::EnableClock,
            RfcStage::AwaitPower | RfcStage::CheckPower => RfcAction::QueryPower,
            RfcStage::RtcSync => RfcAction::EnableRtcSync,
            RfcStage::PowerControl => RfcAction::WritePowerControl(RFC_PWR_ALL),
            RfcStage::AckFlag | RfcStage::AckInterrupt => RfcAction::WriteAckFlag(0),
            RfcStage::VectorSelect => RfcAction::WriteVectorSelect(INTERNAL_ERROR),
            RfcStage::InterruptEnable => RfcAction::WriteInterruptEnable(ENABLED_INTERRUPTS),
            RfcStage::InterruptFlags | RfcStage::ClearFlags(_) => RfcAction::WriteInterruptFlags(
                0,
            ),
            RfcStage::Submodule => RfcAction::SelectSubmodule(BLE_SUBMODULE),
            RfcStage::PlaceRadioSetup(record) => RfcAction::PlaceRadioSetup(record),
            RfcStage::PlaceStartRat(record) => RfcAction::PlaceStartRat(record),
            RfcStage::AwaitClear => RfcAction::ReadCommand,
            RfcStage::Write => RfcAction::WriteCommand(self.word),
            RfcStage::Poll => RfcAction::ReadStatus,
            RfcStage::ReadFlags => RfcAction::ReadInterruptFlags,
            RfcStage::Notify => RfcAction::NotifyClient,
            RfcStage::ErrorFlags => RfcAction::WriteInterruptFlags(0),
            RfcStage::Finished(result) => RfcAction::Complete(result),
            RfcStage::Halted(fault) => RfcAction::Halt(fault),
        }
    }

    /// Takes in the outcome of the access that [`action`](Self::action) asked
    /// for and moves to the next stage.
    pub fn resume(&mut self, reply: RfcReply)
        ensures
            *final(self) == old(self).after(reply),
    {
        let next: RfcStage = match self.stage {
            RfcStage::Finished(_) | RfcStage::Halted(_) => {
                return ;
            },
            RfcStage::AwaitPower => match reply {
                RfcReply::Power(true) => RfcStage::RtcSync,
                RfcReply::Power(false) => RfcStage::AwaitPower,
                _ => RfcStage::Halted(RfcFault::UnexpectedReply),
            },
            RfcStage::CheckPower => match reply {
                RfcReply::Power(true) => RfcStage::AwaitClear,
                RfcReply::Power(false) => RfcStage::Halted(RfcFault::PowerDomainOff),
                _ => RfcStage::Halted(RfcFault::UnexpectedReply),
            },
            RfcStage::AwaitClear => match reply {
                RfcReply::Command(0) => RfcStage::Write,
                RfcReply::Command(_) => RfcStage::AwaitClear,
                _ => RfcStage::Halted(RfcFault::UnexpectedReply),
            },
            RfcStage::Poll => match reply {
                RfcReply::Status(status) => {
                    self.poll(status);
                    return ;
                },
                _ => RfcStage::Halted(RfcFault::UnexpectedReply),
            },
            RfcStage::PlaceRadioSetup(_) | RfcStage::PlaceStartRat(_) => match reply {
                RfcReply::Address(address) => {
                    self.begin(address, true, 0);
                    return ;
                },
                _ => RfcStage::Halted(RfcFault::UnexpectedReply),
            },
            RfcStage::ReadFlags => match reply {
                RfcReply::Flags(flags) => RfcStage::ClearFlags(command_done(flags)),
                _ => RfcStage::Halted(RfcFault::UnexpectedReply),
            },
            written => match reply {
                RfcReply::Done => match written {
                    RfcStage::PowerDomain => RfcStage::Clock,
                    RfcStage::Clock => RfcStage::AwaitPower,
                    RfcStage::RtcSync => RfcStage::PowerControl,
                    RfcStage::PowerControl => RfcStage::AckFlag,
                    RfcStage::AckFlag => RfcStage::VectorSelect,
                    RfcStage::VectorSelect => RfcStage::InterruptEnable,
                    RfcStage::InterruptEnable => RfcStage::InterruptFlags,
                    RfcStage::InterruptFlags => {
                        self.begin(bring_up_command(3), true, 2);
                        return ;
                    },
                    RfcStage::Write => {
                        self.polls = 0;
                        RfcStage::Poll
                    },
                    RfcStage::ClearFlags(true) => RfcStage::Notify,
                    RfcStage::ErrorFlags => RfcStage::Halted(RfcFault::InternalError),
                    _ => RfcStage::Finished(RfcResult::Success),
                },
                _ => RfcStage::Halted(RfcFault::UnexpectedReply),
            },
        };
        self.stage = next;
    }

    /// Starts the transfer of `word`.
    fn begin(&mut self, word: u32, ensure: bool, queued: u8)
        ensures
            *final(self) == Self::transfer(word, ensure, queued),
    {
        self.stage = RfcStage::CheckPower;
        self.word = word;
        self.ensure = ensure;
        self.polls = 0;
        self.queued = queued;
    }

    /// Takes in one read of the status register.
    fn poll(&mut self, status: u32)
        ensures
            *final(self) == old(self).polled(status),
    {
        if (status & 0xFF) == 0x01 {
            if self.queued > 0 {
                let word = bring_up_command(self.queued);
                self.begin(word, self.ensure, self.queued - 1);
            } else {
                self.stage = RfcStage::Finished(RfcResult::Success);
            }
        } else if self.polls < MAX_TIMEOUT - 1 {
            self.polls = self.polls + 1;
        } else if self.ensure {
            self.stage = RfcStage::Halted(
                RfcFault::CommandRejected { command: self.word, status },
            );
        } else {
            self.stage = RfcStage::Finished(RfcResult::Error(status));
        }
    }
}

/// Whether the flags say that a command has run to its end.
fn command_done(flags: u32) -> (done: bool)
    ensures
        done == (flags & COMMAND_DONE != 0),
{
    (flags & COMMAND_DONE) != 0
}

/// The words that the bring-up writes, as numbers. The power-control word has
/// the bits 0 to 9 set, one for each module, and no other; the enabled
/// interrupts are internal error (bit 31), boot done (bit 30) and command done
/// (bit 0); the bus request loses its parameter, which lies in the tag bits.
pub proof fn bring_up_words()
    ensures
        RFC_PWR_ALL == 0x3FF,
        ENABLED_INTERRUPTS == 0xC000_0001,
        bring_up_word(3) == 0x0607_0051,
        bring_up_word(2) == 0x040E_0001,
        bring_up_word(1) == 0x0406_0001,
{
    assert(RFC_PWR_ALL == 0x3FF) by (bit_vector);
    assert(ENABLED_INTERRUPTS == 0xC000_0001) by (bit_vector);
    assert(direct_word(RFC_CMD0, CMD0_PARAMETER) == 0x0607_0051) by (bit_vector);
    assert(direct_word(RFC_BUS_REQUEST, 1) == 0x040E_0001) by (bit_vector);
    assert(direct_word(RFC_PING, 0) == 0x0406_0001) by (bit_vector);
}

} // verus!
