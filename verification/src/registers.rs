//! The doorbell registers as the driver understands them: each holds what was
//! written to it last. The model answers the accesses of a procedure, which is
//! what a simulation needs and what the statements about interrupts rest on.

use crate::procedure::{RfcAction, RfcFault, RfcProcedure, RfcReply, RfcResult, COMMAND_DONE};
use crate::rfc::{interrupt_procedure, RfcInterrupt};
use vstd::prelude::*;

verus! {

/// The doorbell registers that the driver reads or writes.
#[derive(Clone, Copy, Debug, PartialEq, Eq)]
pub struct RfcBellRegisters {
    /// Command register.
    pub cmdr: u32,
    /// Command status register.
    pub cmdsta: u32,
    /// Completion-interrupt flags.
    pub rf_cpe_interrupt_flags: u32,
    /// Completion-interrupt enable.
    pub rf_cpe_interrupt_enable: u32,
    /// Vector selection for the completion interrupts.
    pub rf_cpe_interrupt_vector_sel: u32,
    /// Acknowledgment-interrupt flag.
    pub rf_ack_interrupt_flag: u32,
}

impl RfcBellRegisters {
    /// What the registers answer to `action`, or `None` where the action is no
    /// access to a doorbell register.
    pub open spec fn answer(self, action: RfcAction) -> Option<RfcReply> {
        match action {
            RfcAction::ReadCommand => Some(RfcReply::Command(self.cmdr)),
            RfcAction::ReadStatus => Some(RfcReply::Status(self.cmdsta)),
            RfcAction::ReadInterruptFlags => Some(RfcReply::Flags(self.rf_cpe_interrupt_flags)),
            RfcAction::WriteCommand(_) => Some(RfcReply::Done),
            RfcAction::WriteAckFlag(_) => Some(RfcReply::Done),
            RfcAction::WriteVectorSelect(_) => Some(RfcReply::Done),
            RfcAction::WriteInterruptEnable(_) => Some(RfcReply::Done),
            RfcAction::WriteInterruptFlags(_) => Some(RfcReply::Done),
            _ => None,
        }
    }

    /// The registers after `action`: a write replaces the value of its
    /// register, anything else changes nothing.
    pub open spec fn written(self, action: RfcAction) -> RfcBellRegisters {
        match action {
            RfcAction::WriteCommand(value) => RfcBellRegisters { cmdr: value, ..self },
            RfcAction::WriteAckFlag(value) => RfcBellRegisters {
                rf_ack_interrupt_flag: value,
                ..self
            },
            RfcAction::WriteVectorSelect(value) => RfcBellRegisters {
                rf_cpe_interrupt_vector_sel: value,
                ..self
            },
            RfcAction::WriteInterruptEnable(value) => RfcBellRegisters {
                rf_cpe_interrupt_enable: value,
                ..self
            },
            RfcAction::WriteInterruptFlags(value) => RfcBellRegisters {
                rf_cpe_interrupt_flags: value,
                ..self
            },
            _ => self,
        }
    }

    /// Registers that all read zero.
    pub fn new() -> (registers: RfcBellRegisters)
        ensures
            registers == (RfcBellRegisters {
                cmdr: 0,
                cmdsta: 0,
                rf_cpe_interrupt_flags: 0,
                rf_cpe_interrupt_enable: 0,
                rf_cpe_interrupt_vector_sel: 0,
                rf_ack_interrupt_flag: 0,
            }),
    {
        RfcBellRegisters {
            cmdr: 0,
            cmdsta: 0,
            rf_cpe_interrupt_flags: 0,
            rf_cpe_interrupt_enable: 0,
            rf_cpe_interrupt_vector_sel: 0,
            rf_ack_interrupt_flag: 0,
        }
    }

    /// Makes the access on the registers and returns what it gives.
    pub fn access(&mut self, action: RfcAction) -> (reply: Option<RfcReply>)
        ensures
            reply == old(self).answer(action),
            *final(self) == old(self).written(action),
    {
        match action {
            RfcAction::ReadCommand => Some(RfcReply::Command(self.cmdr)),
            RfcAction::ReadStatus => Some(RfcReply::Status(self.cmdsta)),
            RfcAction::ReadInterruptFlags => Some(RfcReply::Flags(self.rf_cpe_interrupt_flags)),
            RfcAction::WriteCommand(value) => {
                self.cmdr = value;
                Some(RfcReply::Done)
            },
            RfcAction::WriteAckFlag(value) => {
                self.rf_ack_interrupt_flag = value;
                Some(RfcReply::Done)
            },
            RfcAction::WriteVectorSelect(value) => {
                self.rf_cpe_interrupt_vector_sel = value;
                Some(RfcReply::Done)
            },
            RfcAction::WriteInterruptEnable(value) => {
                self.rf_cpe_interrupt_enable = value;
                Some(RfcReply::Done)
            },
            RfcAction::WriteInterruptFlags(value) => {
                self.rf_cpe_interrupt_flags = value;
                Some(RfcReply::Done)
            },
            _ => None,
        }
    }
}

/// One step of `procedure` against `registers`: the awaited access is made on
/// them and its outcome reported. Telling the client is reported as done; any
/// other access that is none to the doorbell leaves both as they are.
pub open spec fn served(
    procedure: RfcProcedure,
    registers: RfcBellRegisters,
) -> (RfcProcedure, RfcBellRegisters) {
    let action = procedure.awaits();
    match registers.answer(action) {
        Some(reply) => (procedure.after(reply), registers.written(action)),
        None => if action == RfcAction::NotifyClient {
            (procedure.after(RfcReply::Done), registers)
        } else {
            (procedure, registers)
        },
    }
}

/// `steps` steps of `procedure` against `registers`.
pub open spec fn served_for(
    procedure: RfcProcedure,
    registers: RfcBellRegisters,
    steps: nat,
) -> (RfcProcedure, RfcBellRegisters)
    decreases steps,
{
    if steps == 0 {
        (procedure, registers)
    } else {
        let before = served_for(procedure, registers, (steps - 1) as nat);
        served(before.0, before.1)
    }
}

impl RfcBellRegisters {
    /// Makes the access that `procedure` is waiting for on these registers and
    /// moves the procedure on.
    pub fn serve(&mut self, procedure: &mut RfcProcedure)
        ensures
            (*final(procedure), *final(self)) == served(*old(procedure), *old(self)),
    {
        let action = procedure.action();
        match self.access(action) {
            Some(reply) => procedure.resume(reply),
            None => match action {
                RfcAction::NotifyClient => procedure.resume(RfcReply::Done),
                _ => {},
            },
        }
    }

    /// Makes `steps` accesses of `procedure` on these registers, one after the
    /// other.
    pub fn serve_for(&mut self, procedure: &mut RfcProcedure, steps: u32)
        ensures
            (*final(procedure), *final(self)) == served_for(
                *old(procedure),
                *old(self),
                steps as nat,
            ),
    {
        let ghost first = *procedure;
        let ghost registers = *self;
        let mut made: u32 = 0;
        while made < steps
            invariant
                made <= steps,
                (*procedure, *self) == served_for(first, registers, made as nat),
            decreases steps - made,
        {
            self.serve(procedure);
            made = made + 1;
        }
    }
}

/// Serving a completion interrupt reads the completion flags and then clears
/// them, whatever they held, before the client hears of anything; the client
/// hears of it exactly when the command-done flag was set. The handler is over
/// after three accesses at most and touches no other register.
pub proof fn completion_interrupt_clears_flags(registers: RfcBellRegisters)
    ensures
        ({
            let start = interrupt_procedure(RfcInterrupt::Cpe0);
            let read = served_for(start, registers, 1);
            let cleared = served_for(start, registers, 2);
            let end = served_for(start, registers, 3);
            let done = registers.rf_cpe_interrupt_flags & COMMAND_DONE != 0;
            &&& start.awaits() == RfcAction::ReadInterruptFlags
            &&& read.0.awaits() == RfcAction::WriteInterruptFlags(0)
            &&& read.1 == registers
            &&& cleared.0.awaits() == if done {
                RfcAction::NotifyClient
            } else {
                RfcAction::Complete(RfcResult::Success)
            }
            &&& cleared.1 == (RfcBellRegisters { rf_cpe_interrupt_flags: 0, ..registers })
            &&& end.0.awaits() == RfcAction::Complete(RfcResult::Success)
            &&& end.1 == cleared.1
        }),
{
    let start = interrupt_procedure(RfcInterrupt::Cpe0);
    reveal_with_fuel(served_for, 4);
}

/// Two completion interrupts in a row, with nothing written by anyone else in
/// between, each read and clear the completion flags on their own account: a
/// read of the flags after them gives zero, and the second one tells the client
/// nothing, since it found the flags already clear.
pub proof fn completion_interrupt_twice(registers: RfcBellRegisters)
    ensures
        ({
            let start = interrupt_procedure(RfcInterrupt::Cpe0);
            let first = served_for(start, registers, 3);
            let second_cleared = served_for(start, first.1, 2);
            let second = served_for(start, first.1, 3);
            &&& first.0.awaits() == RfcAction::Complete(RfcResult::Success)
            &&& second_cleared.0.awaits() == RfcAction::Complete(RfcResult::Success)
            &&& second.0.awaits() == RfcAction::Complete(RfcResult::Success)
            &&& second.1.answer(RfcAction::ReadInterruptFlags) == Some(RfcReply::Flags(0))
            &&& second.1 == first.1
        }),
{
    let start = interrupt_procedure(RfcInterrupt::Cpe0);
    completion_interrupt_clears_flags(registers);
    let first = served_for(start, registers, 3);
    completion_interrupt_clears_flags(first.1);
    assert(0u32 & COMMAND_DONE == 0) by (bit_vector);
}

/// How the other interrupts are served. An acknowledgment interrupt clears the
/// acknowledgment flag and tells nobody. An internal-error interrupt clears all
/// completion flags, whatever they held, so that they read zero afterwards, and
/// is then a fault; the client hears nothing of it. An interrupt on any other
/// vector is a fault before any access.
pub proof fn other_interrupts_are_served(registers: RfcBellRegisters)
    ensures
        ({
            let ack = interrupt_procedure(RfcInterrupt::CmdAck);
            let error = interrupt_procedure(RfcInterrupt::Cpe1);
            let stray = interrupt_procedure(RfcInterrupt::Hardware);
            &&& ack.awaits() == RfcAction::WriteAckFlag(0)
            &&& served(ack, registers).0.awaits() == RfcAction::Complete(RfcResult::Success)
            &&& served(ack, registers).1 == (RfcBellRegisters {
                rf_ack_interrupt_flag: 0,
                ..registers
            })
            &&& error.awaits() == RfcAction::WriteInterruptFlags(0)
            &&& served(error, registers).0.awaits() == RfcAction::Halt(RfcFault::InternalError)
            &&& served(error, registers).1 == (RfcBellRegisters {
                rf_cpe_interrupt_flags: 0,
                ..registers
            })
            &&& served(error, registers).1.answer(RfcAction::ReadInterruptFlags) == Some(
                RfcReply::Flags(0),
            )
            &&& stray.awaits() == RfcAction::Halt(RfcFault::UnhandledInterrupt)
            &&& served(stray, registers) == (stray, registers)
        }),
{
}

} // verus!
