//! The commands that the coprocessor understands, and the bit fields inside them.
//!
//! A command travels in one of two shapes. A *direct* command is packed into a
//! single 32-bit word. An *immediate* command (a radio operation) is a record in
//! memory, and what travels is the record's address.

use crate::bits::{
    field16, field8, get_bit16, get_bit8, get_range16, get_range8, set_bit16, set_bit8,
    set_range16, set_range8, with_field16, with_field8,
};
use vstd::prelude::*;

verus! {

/// The two shapes of a command.
#[derive(Clone, Copy, Debug, PartialEq, Eq)]
pub enum RfcCommandType {
    Direct,
    Immediate,
}

/// The word of a direct command: the opcode in the upper half, the parameter
/// without its two lowest bits below it, and the type tag `0b01` in those two bits.
pub open spec fn direct_word(opcode: u16, parameter: u16) -> u32 {
    ((opcode as u32) << 16) | ((parameter as u32) & 0xFFFC) | 1
}

/// The word that goes into the command register for a command of the given shape.
/// For an immediate command this is the address of its record and nothing else.
pub open spec fn command_word(
    shape: RfcCommandType,
    opcode: u16,
    parameter: u16,
    address: u32,
) -> u32 {
    match shape {
        RfcCommandType::Direct => direct_word(opcode, parameter),
        RfcCommandType::Immediate => address,
    }
}

/// Computes [`direct_word`].
pub fn encode_direct(opcode: u16, parameter: u16) -> (word: u32)
    ensures
        word == direct_word(opcode, parameter),
        word & 3 == 1,
        word >> 16 == opcode,
{
    let cmd: u32 = opcode as u32;
    let par: u32 = parameter as u32;
    let word: u32 = (cmd << 16) | (par & 0xFFFC) | 1;
    proof {
        direct_word_layout(opcode, parameter);
    }
    word
}

/// A direct word always carries the tag `0b01` in its two lowest bits, whatever
/// the parameter; its upper half is the opcode, and bits 2 to 15 are those of
/// the parameter.
pub proof fn direct_word_layout(opcode: u16, parameter: u16)
    ensures
        direct_word(opcode, parameter) & 3 == 1,
        direct_word(opcode, parameter) >> 16 == opcode,
        direct_word(opcode, parameter) & 0xFFFC == parameter & 0xFFFC,
{
    let o: u32 = opcode as u32;
    let p: u32 = parameter as u32;
    assert(((o << 16) | (p & 0xFFFC) | 1) & 3 == 1) by (bit_vector);
    assert(((o << 16) | (p & 0xFFFC) | 1) >> 16 == o) by (bit_vector)
        requires
            o < 0x1_0000,
    ;
    assert(((o << 16) | (p & 0xFFFC) | 1) & 0xFFFC == p & 0xFFFC) by (bit_vector)
        requires
            p < 0x1_0000,
    ;
    assert(p & 0xFFFC == parameter & 0xFFFC) by (bit_vector)
        requires
            p == parameter as u32,
    ;
}

/// What every command can tell about itself.
///
/// `opcode`, `parameter` and `shape` are the command as contracts see it; the
/// three accessors must return just these.
pub trait RfcCommand {
    /// The 16-bit opcode.
    spec fn opcode(&self) -> u16;

    /// The 16-bit status or parameter field.
    spec fn parameter(&self) -> u16;

    /// The shape in which the command travels.
    spec fn shape(&self) -> RfcCommandType;

    fn command_id(&self) -> (id: &u16)
        ensures
            *id == self.opcode(),
    ;

    fn command_status(&self) -> (status: &u16)
        ensures
            *status == self.parameter(),
    ;

    fn command_type(&self) -> (shape: RfcCommandType)
        ensures
            shape == self.shape(),
    ;

    /// The command as one word:
    ///
    /// ```text
    /// bit  31                16                    2    0
    ///      | opcode (16 bits) | parameter, bits 2.. | 0 1 |
    /// ```
    fn direct_command(&self) -> (word: u32)
        ensures
            word == direct_word(self.opcode(), self.parameter()),
    {
        encode_direct(*self.command_id(), *self.command_status())
    }

    /// The word that hands the record at `address` to the coprocessor: the
    /// address itself. No field of the record enters it.
    fn immediate_command(&self, address: u32) -> (word: u32)
        ensures
            word == address,
    {
        address
    }
}

/// A command of one word.
#[derive(Clone, Copy, Debug, PartialEq, Eq)]
pub struct DirectCommand {
    pub command_id: u16,
    pub parameters: u16,
}

impl DirectCommand {
    pub fn new(command: u16, param: u16) -> (cmd: DirectCommand)
        ensures
            cmd == (DirectCommand { command_id: command, parameters: param }),
    {
        DirectCommand { command_id: command, parameters: param }
    }
}

impl RfcCommand for DirectCommand {
    open spec fn opcode(&self) -> u16 {
        self.command_id
    }

    open spec fn parameter(&self) -> u16 {
        self.parameters
    }

    open spec fn shape(&self) -> RfcCommandType {
        RfcCommandType::Direct
    }

    fn command_id(&self) -> (id: &u16) {
        &self.command_id
    }

    fn command_status(&self) -> (status: &u16) {
        &self.parameters
    }

    fn command_type(&self) -> (shape: RfcCommandType) {
        RfcCommandType::Direct
    }
}

/// The header that every radio operation and immediate command begins with.
#[derive(Clone, Copy, Debug, PartialEq, Eq)]
pub struct ImmediateCommand {
    pub command_no: u16,
    pub status: u16,
    pub next_op: u32,
    pub start_time: u32,
    pub start_trigger: u8,
    pub condition: RfcCondition,
}

impl RfcCommand for ImmediateCommand {
    open spec fn opcode(&self) -> u16 {
        self.command_no
    }

    open spec fn parameter(&self) -> u16 {
        self.status
    }

    open spec fn shape(&self) -> RfcCommandType {
        RfcCommandType::Immediate
    }

    fn command_id(&self) -> (id: &u16) {
        &self.command_no
    }

    fn command_status(&self) -> (status: &u16) {
        &self.status
    }

    fn command_type(&self) -> (shape: RfcCommandType) {
        RfcCommandType::Immediate
    }
}

/// The radio operation that puts the coprocessor into a radio mode.
#[derive(Clone, Copy, Debug, PartialEq, Eq)]
pub struct RfcCommandRadioSetup {
    pub command_no: u16,
    pub status: u16,
    pub p_nextop: u32,
    pub ratmr: u32,
    pub start_trigger: u8,
    pub condition: RfcCondition,
    pub mode: u8,
    pub lo_divider: u8,
    pub config: RfcSetupConfig,
    pub tx_power: u16,
    pub reg_override: u32,
}

impl RfcCommand for RfcCommandRadioSetup {
    open spec fn opcode(&self) -> u16 {
        self.command_no
    }

    open spec fn parameter(&self) -> u16 {
        self.status
    }

    open spec fn shape(&self) -> RfcCommandType {
        RfcCommandType::Immediate
    }

    fn command_id(&self) -> (id: &u16) {
        &self.command_no
    }

    fn command_status(&self) -> (status: &u16) {
        &self.status
    }

    fn command_type(&self) -> (shape: RfcCommandType) {
        RfcCommandType::Immediate
    }
}

/// The radio operation that starts the coprocessor's radio timer.
#[derive(Clone, Copy, Debug, PartialEq, Eq)]
pub struct RfcCommandStartRat {
    pub command_no: u16,
    pub status: u16,
    pub next_op: u32,
    pub start_time: u32,
    pub start_trigger: u8,
    pub condition: RfcCondition,
    pub _reserved: u16,
    pub rat0: u32,
}

impl RfcCommand for RfcCommandStartRat {
    open spec fn opcode(&self) -> u16 {
        self.command_no
    }

    open spec fn parameter(&self) -> u16 {
        self.status
    }

    open spec fn shape(&self) -> RfcCommandType {
        RfcCommandType::Immediate
    }

    fn command_id(&self) -> (id: &u16) {
        &self.command_no
    }

    fn command_status(&self) -> (status: &u16) {
        &self.status
    }

    fn command_type(&self) -> (shape: RfcCommandType) {
        RfcCommandType::Immediate
    }
}

/// When a chained operation starts: a 4-bit trigger type, an enable flag for
/// the command that fires it, a 2-bit trigger number and a flag that lets a
/// trigger in the past fire at once.
#[derive(Clone, Copy, Debug, PartialEq, Eq)]
pub struct RfcTrigger(pub u8);

impl RfcTrigger {
    pub fn _trigger_type(&self) -> (value: u8)
        ensures
            value == self.0 & 0x0F,
    {
        proof {
            trigger_fields(self.0, 0);
        }
        get_range8(self.0, 3, 0)
    }

    pub fn _set_trigger_type(&mut self, value: u8)
        ensures
            final(self).0 == (old(self).0 & 0xF0) | (value & 0x0F),
    {
        proof {
            trigger_fields(self.0, value);
        }
        self.0 = set_range8(self.0, 3, 0, value);
    }

    pub fn _enable_cmd(&self) -> (value: bool)
        ensures
            value == (self.0 & 0x10 != 0),
    {
        proof {
            trigger_fields(self.0, 0);
        }
        get_bit8(self.0, 4)
    }

    pub fn _set_enable_cmd(&mut self, value: bool)
        ensures
            final(self).0 == (old(self).0 & 0xEF) | (if value { 0x10u8 } else { 0u8 }),
    {
        proof {
            trigger_flags(self.0);
        }
        self.0 = set_bit8(self.0, 4, value);
    }

    pub fn _trigger_no(&self) -> (value: u8)
        ensures
            value == (self.0 >> 5) & 0x03,
    {
        proof {
            trigger_fields(self.0, 0);
        }
        get_range8(self.0, 6, 5)
    }

    pub fn _set_trigger_no(&mut self, value: u8)
        ensures
            final(self).0 == (old(self).0 & 0x9F) | ((value & 0x03) << 5),
    {
        proof {
            trigger_fields(self.0, value);
        }
        self.0 = set_range8(self.0, 6, 5, value);
    }

    pub fn _past_trigger(&self) -> (value: bool)
        ensures
            value == (self.0 & 0x80 != 0),
    {
        proof {
            trigger_fields(self.0, 0);
        }
        get_bit8(self.0, 7)
    }

    pub fn _set_past_trigger(&mut self, value: bool)
        ensures
            final(self).0 == (old(self).0 & 0x7F) | (if value { 0x80u8 } else { 0u8 }),
    {
        proof {
            trigger_flags(self.0);
        }
        self.0 = set_bit8(self.0, 7, value);
    }
}

proof fn trigger_fields(raw: u8, value: u8)
    by (bit_vector)
    ensures
        field8(raw, 3, 0) == raw & 0x0F,
        with_field8(raw, 3, 0, value) == (raw & 0xF0) | (value & 0x0F),
        (field8(raw, 4, 4) != 0) == (raw & 0x10 != 0),
        field8(raw, 6, 5) == (raw >> 5) & 0x03,
        with_field8(raw, 6, 5, value) == (raw & 0x9F) | ((value & 0x03) << 5),
        (field8(raw, 7, 7) != 0) == (raw & 0x80 != 0),
{
}

proof fn trigger_flags(raw: u8)
    by (bit_vector)
    ensures
        with_field8(raw, 4, 4, 1) == (raw & 0xEF) | 0x10,
        with_field8(raw, 4, 4, 0) == (raw & 0xEF) | 0,
        with_field8(raw, 7, 7, 1) == (raw & 0x7F) | 0x80,
        with_field8(raw, 7, 7, 0) == (raw & 0x7F) | 0,
{
}

/// Whether a chained operation runs: a 4-bit rule and a 4-bit skip count.
#[derive(Clone, Copy, Debug, PartialEq, Eq)]
pub struct RfcCondition(pub u8);

impl RfcCondition {
    pub fn _rule(&self) -> (value: u8)
        ensures
            value == self.0 & 0x0F,
    {
        proof {
            condition_fields(self.0, 0);
        }
        get_range8(self.0, 3, 0)
    }

    pub fn set_rule(&mut self, value: u8)
        ensures
            final(self).0 == (old(self).0 & 0xF0) | (value & 0x0F),
    {
        proof {
            condition_fields(self.0, value);
        }
        self.0 = set_range8(self.0, 3, 0, value);
    }

    pub fn _skip(&self) -> (value: u8)
        ensures
            value == self.0 >> 4,
    {
        proof {
            condition_fields(self.0, 0);
        }
        get_range8(self.0, 7, 4)
    }

    pub fn _set_skip(&mut self, value: u8)
        ensures
            final(self).0 == (old(self).0 & 0x0F) | ((value & 0x0F) << 4),
    {
        proof {
            condition_fields(self.0, value);
        }
        self.0 = set_range8(self.0, 7, 4, value);
    }
}

proof fn condition_fields(raw: u8, value: u8)
    by (bit_vector)
    ensures
        field8(raw, 3, 0) == raw & 0x0F,
        with_field8(raw, 3, 0, value) == (raw & 0xF0) | (value & 0x0F),
        field8(raw, 7, 4) == raw >> 4,
        with_field8(raw, 7, 4, value) == (raw & 0x0F) | ((value & 0x0F) << 4),
{
}

/// Front-end configuration of the radio setup command: a 3-bit front-end mode, a
/// bias-mode flag, a 6-bit analog configuration mode and a flag that keeps the
/// frequency synthesizer powered down.
#[derive(Clone, Copy, Debug, PartialEq, Eq)]
pub struct RfcSetupConfig(pub u16);

impl RfcSetupConfig {
    pub fn _frontend_mode(&self) -> (value: u16)
        ensures
            value == self.0 & 0x0007,
    {
        proof {
            setup_config_fields(self.0, 0);
        }
        get_range16(self.0, 2, 0)
    }

    pub fn set_frontend_mode(&mut self, value: u16)
        ensures
            final(self).0 == (old(self).0 & 0xFFF8) | (value & 0x0007),
    {
        proof {
            setup_config_fields(self.0, value);
        }
        self.0 = set_range16(self.0, 2, 0, value);
    }

    pub fn _bias_mode(&self) -> (value: bool)
        ensures
            value == (self.0 & 0x0008 != 0),
    {
        proof {
            setup_config_fields(self.0, 0);
        }
        get_bit16(self.0, 3)
    }

    pub fn set_bias_mode(&mut self, value: bool)
        ensures
            final(self).0 == (old(self).0 & 0xFFF7) | (if value { 0x0008u16 } else { 0u16 }),
    {
        proof {
            setup_config_flags(self.0);
        }
        self.0 = set_bit16(self.0, 3, value);
    }

    pub fn _analog_cfg_mode(&self) -> (value: u16)
        ensures
            value == (self.0 >> 4) & 0x003F,
    {
        proof {
            setup_config_fields(self.0, 0);
        }
        get_range16(self.0, 9, 4)
    }

    pub fn _set_analog_config_mode(&mut self, value: u16)
        ensures
            final(self).0 == (old(self).0 & 0xFC0F) | ((value & 0x003F) << 4),
    {
        proof {
            setup_config_fields(self.0, value);
        }
        self.0 = set_range16(self.0, 9, 4, value);
    }

    pub fn _no_fs_powerup(&self) -> (value: bool)
        ensures
            value == (self.0 & 0x0400 != 0),
    {
        proof {
            setup_config_fields(self.0, 0);
        }
        get_bit16(self.0, 10)
    }

    pub fn _set_no_fs_powerup(&mut self, value: bool)
        ensures
            final(self).0 == (old(self).0 & 0xFBFF) | (if value { 0x0400u16 } else { 0u16 }),
    {
        proof {
            setup_config_flags(self.0);
        }
        self.0 = set_bit16(self.0, 10, value);
    }
}

proof fn setup_config_fields(raw: u16, value: u16)
    by (bit_vector)
    ensures
        field16(raw, 2, 0) == raw & 0x0007,
        with_field16(raw, 2, 0, value) == (raw & 0xFFF8) | (value & 0x0007),
        (field16(raw, 3, 3) != 0) == (raw & 0x0008 != 0),
        field16(raw, 9, 4) == (raw >> 4) & 0x003F,
        with_field16(raw, 9, 4, value) == (raw & 0xFC0F) | ((value & 0x003F) << 4),
        (field16(raw, 10, 10) != 0) == (raw & 0x0400 != 0),
{
}

proof fn setup_config_flags(raw: u16)
    by (bit_vector)
    ensures
        with_field16(raw, 3, 3, 1) == (raw & 0xFFF7) | 0x0008,
        with_field16(raw, 3, 3, 0) == (raw & 0xFFF7) | 0,
        with_field16(raw, 10, 10, 1) == (raw & 0xFBFF) | 0x0400,
        with_field16(raw, 10, 10, 0) == (raw & 0xFBFF) | 0,
{
}

} // verus!
