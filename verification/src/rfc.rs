//! The channel to the radio coprocessor.
//!
//! [`RFCore`] holds what outlives a single command: the selected radio mode and
//! the client that hears of finished commands. Each of its operations hands back
//! an [`RfcProcedure`], which the caller runs against the hardware.
//!
//! The order of a bring-up is `enable`, `set_mode`, `setup`, `start_rat`.

use crate::procedure::{
    RfcFault, RfcProcedure, RfcStage, RFC_SETUP, RFC_START_RAT_TIMER,
};
use crate::rfc_commands::{
    command_word, RfcCommand, RfcCommandRadioSetup, RfcCommandStartRat, RfcCommandType,
    RfcCondition, RfcSetupConfig,
};
use vstd::prelude::*;

verus! {

/// Condition rule of an operation that never runs a successor by itself.
pub const COND_NEVER: u8 = 0x01;

/// Transmit-power calibration code handed over at setup.
pub const TX_POWER: u16 = 0x9330;

/// The interrupt sources of the coprocessor.
#[derive(Clone, Copy, Debug, PartialEq, Eq)]
pub enum RfcInterrupt {
    /// Completion interrupts of the command and packet engine, all but one.
    Cpe0,
    /// The internal-error interrupt of the command and packet engine.
    Cpe1,
    /// The coprocessor has taken a command out of the command register.
    CmdAck,
    /// Any other vector.
    Hardware,
}

/// The radio modes that the setup command knows.
#[derive(Clone, Copy, Debug, PartialEq, Eq)]
pub enum RfcMode {
    BLE,
    IEEE802154,
    Unchanged,
}

impl RfcMode {
    /// The number that stands for the mode in the setup command.
    pub open spec fn code_of(self) -> u8 {
        match self {
            RfcMode::BLE => 0x00,
            RfcMode::IEEE802154 => 0x01,
            RfcMode::Unchanged => 0xFF,
        }
    }

    /// The number that stands for the mode in the setup command.
    pub fn code(self) -> (code: u8)
        ensures
            code == self.code_of(),
    {
        match self {
            RfcMode::BLE => 0x00,
            RfcMode::IEEE802154 => 0x01,
            RfcMode::Unchanged => 0xFF,
        }
    }
}

/// Whoever wants to hear that a command has been processed.
pub trait RFCoreClient {
    /// Called from interrupt context once the completion flags are cleared.
    fn command_done(&self);
}

/// The setup record for `mode`: no successor, no start trigger, the rule that
/// never runs anything by itself, a differential front end with internal bias,
/// the fixed transmit-power code and the caller's register overrides.
pub open spec fn radio_setup_record(mode: RfcMode, reg_override: u32) -> RfcCommandRadioSetup {
    RfcCommandRadioSetup {
        command_no: RFC_SETUP,
        status: 0,
        p_nextop: 0,
        ratmr: 0,
        start_trigger: 0,
        condition: RfcCondition(COND_NEVER),
        mode: mode.code_of(),
        lo_divider: 0,
        config: RfcSetupConfig(0),
        tx_power: TX_POWER,
        reg_override,
    }
}

/// The record that starts the radio timer: start time zero, no successor, the
/// rule that never runs anything by itself.
pub open spec fn start_rat_record() -> RfcCommandStartRat {
    RfcCommandStartRat {
        command_no: RFC_START_RAT_TIMER,
        status: 0,
        next_op: 0,
        start_time: 0,
        start_trigger: 0,
        condition: RfcCondition(COND_NEVER),
        _reserved: 0,
        rat0: 0,
    }
}

/// How a bring-up begins: with switching the power domain on.
pub open spec fn enable_procedure() -> RfcProcedure {
    RfcProcedure::starting(RfcStage::PowerDomain)
}

/// What selecting `mode` asks of the hardware: for BLE, to route power to its
/// submodule; for anything else nothing, it is a fault.
pub open spec fn mode_procedure(mode: RfcMode) -> RfcProcedure {
    if mode == RfcMode::BLE {
        RfcProcedure::starting(RfcStage::Submodule)
    } else {
        RfcProcedure::starting(RfcStage::Halted(RfcFault::UnsupportedMode))
    }
}

/// How the radio is set up when `mode` is the channel's mode: without a mode it
/// is a fault before any access; with one the setup record is placed and sent.
pub open spec fn setup_procedure(mode: Option<RfcMode>, reg_override: u32) -> RfcProcedure {
    match mode {
        None => RfcProcedure::starting(RfcStage::Halted(RfcFault::NoModeSelected)),
        Some(mode) => RfcProcedure::starting(
            RfcStage::PlaceRadioSetup(radio_setup_record(mode, reg_override)),
        ),
    }
}

/// How the radio timer is started: its record is placed and sent.
pub open spec fn start_rat_procedure() -> RfcProcedure {
    RfcProcedure::starting(RfcStage::PlaceStartRat(start_rat_record()))
}

/// How an interrupt is served.
pub open spec fn interrupt_procedure(interrupt: RfcInterrupt) -> RfcProcedure {
    match interrupt {
        RfcInterrupt::CmdAck => RfcProcedure::starting(RfcStage::AckInterrupt),
        RfcInterrupt::Cpe0 => RfcProcedure::starting(RfcStage::ReadFlags),
        RfcInterrupt::Cpe1 => RfcProcedure::starting(RfcStage::ErrorFlags),
        RfcInterrupt::Hardware => RfcProcedure::starting(
            RfcStage::Halted(RfcFault::UnhandledInterrupt),
        ),
    }
}

/// The channel to one coprocessor.
pub struct RFCore<'a> {
    client: Option<&'a dyn RFCoreClient>,
    mode: Option<RfcMode>,
}

impl<'a> RFCore<'a> {
    /// The radio mode on record.
    pub closed spec fn mode(&self) -> Option<RfcMode> {
        self.mode
    }

    /// Whether a client is registered.
    pub closed spec fn has_client(&self) -> bool {
        self.client is Some
    }

    /// A channel with no mode selected and no client.
    pub fn new() -> (core: RFCore<'a>)
        ensures
            core.mode() is None,
            !core.has_client(),
    {
        RFCore { client: None, mode: None }
    }

    pub fn current_mode(&self) -> (mode: Option<RfcMode>)
        ensures
            mode == self.mode(),
    {
        self.mode
    }

    /// Selects the radio mode. BLE is recorded and its submodule is to be
    /// powered; any other mode is a fault and leaves the record as it was.
    pub fn set_mode(&mut self, mode: RfcMode) -> (procedure: RfcProcedure)
        ensures
            procedure == mode_procedure(mode),
            final(self).mode() == if mode == RfcMode::BLE {
                Some(mode)
            } else {
                old(self).mode()
            },
            final(self).has_client() == old(self).has_client(),
    {
        match mode {
            RfcMode::BLE => {
                self.mode = Some(mode);
                start(RfcStage::Submodule)
            },
            _ => start(RfcStage::Halted(RfcFault::UnsupportedMode)),
        }
    }

    /// Powers the coprocessor up and proves it alive.
    pub fn enable(&self) -> (procedure: RfcProcedure)
        ensures
            procedure == enable_procedure(),
    {
        start(RfcStage::PowerDomain)
    }

    /// Sets the radio up for the mode on record.
    pub fn setup(&self, reg_override: u32) -> (procedure: RfcProcedure)
        ensures
            procedure == setup_procedure(self.mode(), reg_override),
    {
        let mode = match self.mode {
            Some(mode) => mode,
            None => {
                return start(RfcStage::Halted(RfcFault::NoModeSelected));
            },
        };
        let mut cond = RfcCondition(0);
        cond.set_rule(COND_NEVER);
        let mut cfg = RfcSetupConfig(0);
        cfg.set_frontend_mode(0);
        cfg.set_bias_mode(false);
        proof {
            cleared_fields();
        }
        let setup_cmd = RfcCommandRadioSetup {
            command_no: RFC_SETUP,
            status: 0,
            p_nextop: 0,
            ratmr: 0,
            start_trigger: 0,
            condition: cond,
            mode: mode.code(),
            lo_divider: 0,
            config: cfg,
            tx_power: TX_POWER,
            reg_override,
        };
        start(RfcStage::PlaceRadioSetup(setup_cmd))
    }

    /// Starts the coprocessor's radio timer.
    pub fn start_rat(&self) -> (procedure: RfcProcedure)
        ensures
            procedure == start_rat_procedure(),
    {
        let mut cond = RfcCondition(0);
        cond.set_rule(COND_NEVER);
        proof {
            cleared_fields();
        }
        let cmd = RfcCommandStartRat {
            command_no: RFC_START_RAT_TIMER,
            status: 0,
            next_op: 0,
            start_time: 0,
            start_trigger: 0,
            condition: cond,
            _reserved: 0,
            rat0: 0,
        };
        start(RfcStage::PlaceStartRat(cmd))
    }

    /// Hands `cmd` to the coprocessor; a command that is not acknowledged is a
    /// fault. `address` is where the record of an immediate command lies.
    pub fn send_ensure<C: RfcCommand>(&self, cmd: &C, address: u32) -> (procedure: RfcProcedure)
        ensures
            procedure == RfcProcedure::transfer(
                command_word(cmd.shape(), cmd.opcode(), cmd.parameter(), address),
                true,
                0,
            ),
    {
        let mut procedure = self.send(cmd, address);
        procedure.ensure = true;
        procedure
    }

    /// Hands `cmd` to the coprocessor; the procedure ends with the outcome.
    /// `address` is where the record of an immediate command lies.
    pub fn send<C: RfcCommand>(&self, cmd: &C, address: u32) -> (procedure: RfcProcedure)
        ensures
            procedure == RfcProcedure::transfer(
                command_word(cmd.shape(), cmd.opcode(), cmd.parameter(), address),
                false,
                0,
            ),
    {
        let command: u32 = match cmd.command_type() {
            RfcCommandType::Direct => cmd.direct_command(),
            RfcCommandType::Immediate => cmd.immediate_command(address),
        };
        RfcProcedure { stage: RfcStage::CheckPower, word: command, ensure: false, polls: 0, queued: 0 }
    }

    /// Serves an interrupt of the coprocessor.
    pub fn handle_interrupt(&self, interrupt: RfcInterrupt) -> (procedure: RfcProcedure)
        ensures
            procedure == interrupt_procedure(interrupt),
    {
        match interrupt {
            RfcInterrupt::CmdAck => start(RfcStage::AckInterrupt),
            RfcInterrupt::Cpe0 => start(RfcStage::ReadFlags),
            RfcInterrupt::Cpe1 => start(RfcStage::ErrorFlags),
            RfcInterrupt::Hardware => start(RfcStage::Halted(RfcFault::UnhandledInterrupt)),
        }
    }

    /// Registers the client that hears of finished commands.
    pub fn set_client(&mut self, client: &'a dyn RFCoreClient)
        ensures
            final(self).has_client(),
            final(self).mode() == old(self).mode(),
    {
        self.client = Some(client);
    }

    /// Tells the client, if there is one, that a command is done. Returns
    /// whether there was one to tell.
    pub fn notify_client(&self) -> (told: bool)
        ensures
            told == self.has_client(),
    {
        match self.client {
            Some(client) => {
                client.command_done();
                true
            },
            None => false,
        }
    }
}

fn start(stage: RfcStage) -> (procedure: RfcProcedure)
    ensures
        procedure == RfcProcedure::starting(stage),
{
    RfcProcedure { stage, word: 0, ensure: true, polls: 0, queued: 0 }
}

proof fn cleared_fields()
    ensures
        (0u8 & 0xF0) | (COND_NEVER & 0x0F) == COND_NEVER,
        (0u16 & 0xFFF8) | (0u16 & 0x0007) == 0,
        (0u16 & 0xFFF7) | 0u16 == 0,
{
    assert((0u8 & 0xF0) | (0x01u8 & 0x0F) == 0x01) by (bit_vector);
    assert((0u16 & 0xFFF8) | (0u16 & 0x0007) == 0) by (bit_vector);
    assert((0u16 & 0xFFF7) | 0u16 == 0) by (bit_vector);
}

} // verus!
