use rfcore::rfc_commands::{
    encode_direct, DirectCommand, ImmediateCommand, RfcCommand, RfcCommandRadioSetup,
    RfcCommandStartRat, RfcCommandType, RfcCondition, RfcSetupConfig,
};

#[test]
fn ping_is_encoded_as_one_word() {
    let ping = DirectCommand::new(0x0406, 0);
    assert_eq!(ping.command_type(), RfcCommandType::Direct);
    assert_eq!(*ping.command_id(), 0x0406);
    assert_eq!(*ping.command_status(), 0);
    assert_eq!(ping.direct_command(), 0x0406_0001);
}

#[test]
fn direct_word_follows_the_formula() {
    let samples: [(u16, u16); 6] = [
        (0x0000, 0x0000),
        (0xFFFF, 0xFFFF),
        (0x0607, 0x0050),
        (0x040E, 0x0001),
        (0x1234, 0xABCD),
        (0x8000, 0x0003),
    ];
    for (opcode, parameter) in samples {
        let expected = ((opcode as u32) << 16) | ((parameter as u32) & 0xFFFC) | 1;
        assert_eq!(encode_direct(opcode, parameter), expected);
        assert_eq!(DirectCommand::new(opcode, parameter).direct_command(), expected);
        assert_eq!(expected & 0b11, 0b01);
    }
}

#[test]
fn direct_word_exact_values() {
    assert_eq!(encode_direct(0x0607, 0x50), 0x0607_0051);
    assert_eq!(encode_direct(0xFFFF, 0xFFFF), 0xFFFF_FFFD);
    assert_eq!(encode_direct(0x1234, 0xABCD), 0x1234_ABCD);
    assert_eq!(encode_direct(0, 0), 0x0000_0001);
}

#[test]
fn low_parameter_bits_are_dropped() {
    // The bus request carries the parameter 1, which lies in the tag bits.
    assert_eq!(encode_direct(0x040E, 1), 0x040E_0001);
    assert_eq!(encode_direct(0x040E, 0), 0x040E_0001);
    assert_eq!(encode_direct(0x040E, 2), 0x040E_0001);
    assert_eq!(encode_direct(0x040E, 3), 0x040E_0001);
    assert_eq!(encode_direct(0x040E, 4), 0x040E_0005);
}

#[test]
fn direct_command_keeps_its_fields() {
    let cmd = DirectCommand::new(0x0607, 0x50);
    assert_eq!(cmd.command_id, 0x0607);
    assert_eq!(cmd.parameters, 0x50);
    assert_eq!(cmd, DirectCommand { command_id: 0x0607, parameters: 0x50 });
}

#[test]
fn immediate_word_is_the_address() {
    let mut record = ImmediateCommand {
        command_no: 0x0802,
        status: 0,
        next_op: 0,
        start_time: 0,
        start_trigger: 0,
        condition: RfcCondition(1),
    };
    assert_eq!(record.command_type(), RfcCommandType::Immediate);
    assert_eq!(record.immediate_command(0x2000_0100), 0x2000_0100);
    record.status = 0xBEEF;
    record.next_op = 0x2000_0200;
    assert_eq!(record.immediate_command(0x2000_0100), 0x2000_0100);
    assert_eq!(*record.command_id(), 0x0802);
    assert_eq!(*record.command_status(), 0xBEEF);
}

#[test]
fn radio_operations_are_immediate() {
    let setup = RfcCommandRadioSetup {
        command_no: 0x0802,
        status: 7,
        p_nextop: 0,
        ratmr: 0,
        start_trigger: 0,
        condition: RfcCondition(1),
        mode: 0,
        lo_divider: 0,
        config: RfcSetupConfig(0),
        tx_power: 0x9330,
        reg_override: 0,
    };
    assert_eq!(setup.command_type(), RfcCommandType::Immediate);
    assert_eq!(*setup.command_id(), 0x0802);
    assert_eq!(*setup.command_status(), 7);
    assert_eq!(setup.immediate_command(0x1000), 0x1000);

    let rat = RfcCommandStartRat {
        command_no: 0x080A,
        status: 9,
        next_op: 0,
        start_time: 0,
        start_trigger: 0,
        condition: RfcCondition(1),
        _reserved: 0,
        rat0: 0,
    };
    assert_eq!(rat.command_type(), RfcCommandType::Immediate);
    assert_eq!(*rat.command_id(), 0x080A);
    assert_eq!(*rat.command_status(), 9);
    assert_eq!(rat.immediate_command(0x1004), 0x1004);
}

/// A command of the embedding firmware's own.
struct AbortCommand {
    opcode: u16,
    extension: u16,
}

impl RfcCommand for AbortCommand {
    fn opcode(&self) -> u16 {
        self.opcode
    }

    fn parameter(&self) -> u16 {
        self.extension
    }

    fn shape(&self) -> RfcCommandType {
        RfcCommandType::Direct
    }

    fn command_id(&self) -> &u16 {
        &self.opcode
    }

    fn command_status(&self) -> &u16 {
        &self.extension
    }

    fn command_type(&self) -> RfcCommandType {
        RfcCommandType::Direct
    }
}

#[test]
fn custom_command_gets_the_default_encoding() {
    let abort = AbortCommand { opcode: 0x0401, extension: 0x00FF };
    assert_eq!(abort.direct_command(), 0x0401_00FD);
    assert_eq!(abort.immediate_command(0x2000_0000), 0x2000_0000);
    let core = rfcore::rfc::RFCore::new();
    assert_eq!(core.send(&abort, 0x2000_0000).word, 0x0401_00FD);
}
