use rfcore::procedure::{
    RfcAction, RfcFault, RfcProcedure, RfcReply, RfcResult, RfcStage, MAX_TIMEOUT,
};
use rfcore::rfc::{RFCore, RfcMode};
use rfcore::rfc_commands::{RfcCommandRadioSetup, RfcCommandStartRat, RfcCondition, RfcSetupConfig};

/// A board that does what it is asked and keeps a record of it.
struct MockBoard {
    power_up_after: Option<u32>,
    power_queries: u32,
    accepts: bool,
    record_address: u32,
    log: Vec<RfcAction>,
}

impl MockBoard {
    fn healthy() -> MockBoard {
        MockBoard {
            power_up_after: Some(0),
            power_queries: 0,
            accepts: true,
            record_address: 0x2000_1000,
            log: Vec::new(),
        }
    }

    fn answer(&mut self, action: RfcAction) -> RfcReply {
        self.log.push(action);
        match action {
            RfcAction::QueryPower => {
                let up = match self.power_up_after {
                    Some(queries) => self.power_queries >= queries,
                    None => false,
                };
                self.power_queries += 1;
                RfcReply::Power(up)
            }
            RfcAction::ReadCommand => RfcReply::Command(0),
            RfcAction::ReadStatus => RfcReply::Status(if self.accepts { 0x01 } else { 0x82 }),
            RfcAction::ReadInterruptFlags => RfcReply::Flags(0),
            RfcAction::PlaceRadioSetup(_) | RfcAction::PlaceStartRat(_) => {
                RfcReply::Address(self.record_address)
            }
            _ => RfcReply::Done,
        }
    }

    fn drive(&mut self, mut procedure: RfcProcedure, limit: u32) -> RfcAction {
        let mut steps = 0;
        loop {
            let action = procedure.action();
            if matches!(action, RfcAction::Complete(_) | RfcAction::Halt(_)) || steps == limit {
                return action;
            }
            let reply = self.answer(action);
            procedure.resume(reply);
            steps += 1;
        }
    }
}

#[test]
fn enable_runs_the_whole_bring_up_in_order() {
    let core = RFCore::new();
    let mut board = MockBoard::healthy();
    board.power_up_after = Some(2);
    let end = board.drive(core.enable(), 1000);
    assert_eq!(end, RfcAction::Complete(RfcResult::Success));
    assert_eq!(
        board.log,
        vec![
            RfcAction::EnablePowerDomain,
            RfcAction::EnableClock,
            RfcAction::QueryPower,
            RfcAction::QueryPower,
            RfcAction::QueryPower,
            RfcAction::EnableRtcSync,
            RfcAction::WritePowerControl(0x3FF),
            RfcAction::WriteAckFlag(0),
            RfcAction::WriteVectorSelect(0x8000_0000),
            RfcAction::WriteInterruptEnable(0xC000_0001),
            RfcAction::WriteInterruptFlags(0),
            RfcAction::QueryPower,
            RfcAction::ReadCommand,
            RfcAction::WriteCommand(0x0607_0051),
            RfcAction::ReadStatus,
            RfcAction::QueryPower,
            RfcAction::ReadCommand,
            RfcAction::WriteCommand(0x040E_0001),
            RfcAction::ReadStatus,
            RfcAction::QueryPower,
            RfcAction::ReadCommand,
            RfcAction::WriteCommand(0x0406_0001),
            RfcAction::ReadStatus,
        ]
    );
}

#[test]
fn enable_hangs_while_the_power_domain_stays_down() {
    let core = RFCore::new();
    let mut board = MockBoard::healthy();
    board.power_up_after = None;
    let end = board.drive(core.enable(), 100_000);
    assert_eq!(end, RfcAction::QueryPower);
    assert_eq!(board.log.len(), 100_000);
    assert_eq!(board.log[0], RfcAction::EnablePowerDomain);
    assert_eq!(board.log[1], RfcAction::EnableClock);
    for action in &board.log[2..] {
        assert_eq!(*action, RfcAction::QueryPower);
    }
    assert!(!board.log.iter().any(|action| matches!(
        action,
        RfcAction::WriteCommand(_) | RfcAction::ReadCommand | RfcAction::ReadStatus
    )));
}

#[test]
fn enable_halts_when_a_bring_up_command_is_rejected() {
    let mut procedure = RfcProcedure {
        stage: RfcStage::Poll,
        word: 0x0607_0051,
        ensure: true,
        polls: MAX_TIMEOUT - 1,
        queued: 2,
    };
    procedure.resume(RfcReply::Status(0x0000_0081));
    assert_eq!(
        procedure.action(),
        RfcAction::Halt(RfcFault::CommandRejected { command: 0x0607_0051, status: 0x0000_0081 })
    );
}

#[test]
fn bring_up_commands_follow_one_another() {
    let mut procedure = RfcProcedure {
        stage: RfcStage::Poll,
        word: 0x0607_0051,
        ensure: true,
        polls: 17,
        queued: 2,
    };
    procedure.resume(RfcReply::Status(0x0000_0001));
    assert_eq!(
        procedure,
        RfcProcedure { stage: RfcStage::CheckPower, word: 0x040E_0001, ensure: true, polls: 0, queued: 1 }
    );
    procedure.stage = RfcStage::Poll;
    procedure.resume(RfcReply::Status(0x0000_0001));
    assert_eq!(
        procedure,
        RfcProcedure { stage: RfcStage::CheckPower, word: 0x0406_0001, ensure: true, polls: 0, queued: 0 }
    );
    procedure.stage = RfcStage::Poll;
    procedure.resume(RfcReply::Status(0x0000_0001));
    assert_eq!(procedure.action(), RfcAction::Complete(RfcResult::Success));
}

#[test]
fn new_channel_has_no_mode() {
    let core = RFCore::new();
    assert_eq!(core.current_mode(), None);
    assert!(!core.notify_client());
}

#[test]
fn set_mode_accepts_ble() {
    let mut core = RFCore::new();
    let procedure = core.set_mode(RfcMode::BLE);
    assert_eq!(core.current_mode(), Some(RfcMode::BLE));
    let mut board = MockBoard::healthy();
    let end = board.drive(procedure, 10);
    assert_eq!(end, RfcAction::Complete(RfcResult::Success));
    assert_eq!(board.log, vec![RfcAction::SelectSubmodule(0x01)]);
}

#[test]
fn set_mode_rejects_every_other_mode() {
    for mode in [RfcMode::IEEE802154, RfcMode::Unchanged] {
        let mut core = RFCore::new();
        let procedure = core.set_mode(mode);
        assert_eq!(procedure.action(), RfcAction::Halt(RfcFault::UnsupportedMode));
        assert_eq!(core.current_mode(), None);
        let mut board = MockBoard::healthy();
        assert_eq!(board.drive(procedure, 10), RfcAction::Halt(RfcFault::UnsupportedMode));
        assert!(board.log.is_empty());
    }
}

#[test]
fn a_rejected_mode_leaves_the_selected_one() {
    let mut core = RFCore::new();
    core.set_mode(RfcMode::BLE);
    let procedure = core.set_mode(RfcMode::IEEE802154);
    assert_eq!(procedure.action(), RfcAction::Halt(RfcFault::UnsupportedMode));
    assert_eq!(core.current_mode(), Some(RfcMode::BLE));
}

#[test]
fn mode_codes() {
    assert_eq!(RfcMode::BLE.code(), 0x00);
    assert_eq!(RfcMode::IEEE802154.code(), 0x01);
    assert_eq!(RfcMode::Unchanged.code(), 0xFF);
}

#[test]
fn setup_before_set_mode_fails() {
    let core = RFCore::new();
    let procedure = core.setup(0x2000_0040);
    assert_eq!(procedure.action(), RfcAction::Halt(RfcFault::NoModeSelected));
    let mut board = MockBoard::healthy();
    assert_eq!(board.drive(procedure, 10), RfcAction::Halt(RfcFault::NoModeSelected));
    assert!(board.log.is_empty());
}

#[test]
fn setup_places_and_sends_the_setup_record() {
    let mut core = RFCore::new();
    core.set_mode(RfcMode::BLE);
    let mut board = MockBoard::healthy();
    let end = board.drive(core.setup(0x2000_0040), 100);
    assert_eq!(end, RfcAction::Complete(RfcResult::Success));
    let record = RfcCommandRadioSetup {
        command_no: 0x0802,
        status: 0,
        p_nextop: 0,
        ratmr: 0,
        start_trigger: 0,
        condition: RfcCondition(0x01),
        mode: 0x00,
        lo_divider: 0,
        config: RfcSetupConfig(0),
        tx_power: 0x9330,
        reg_override: 0x2000_0040,
    };
    assert_eq!(
        board.log,
        vec![
            RfcAction::PlaceRadioSetup(record),
            RfcAction::QueryPower,
            RfcAction::ReadCommand,
            RfcAction::WriteCommand(0x2000_1000),
            RfcAction::ReadStatus,
        ]
    );
}

#[test]
fn setup_halts_when_the_command_is_rejected() {
    let mut core = RFCore::new();
    core.set_mode(RfcMode::BLE);
    let mut procedure = core.setup(0);
    procedure.resume(RfcReply::Address(0x2000_2000));
    assert_eq!(
        procedure,
        RfcProcedure { stage: RfcStage::CheckPower, word: 0x2000_2000, ensure: true, polls: 0, queued: 0 }
    );
    procedure.stage = RfcStage::Poll;
    procedure.polls = MAX_TIMEOUT - 1;
    procedure.resume(RfcReply::Status(0x0000_0085));
    assert_eq!(
        procedure.action(),
        RfcAction::Halt(RfcFault::CommandRejected { command: 0x2000_2000, status: 0x0000_0085 })
    );
}

#[test]
fn start_rat_places_and_sends_the_timer_record() {
    let core = RFCore::new();
    let mut board = MockBoard::healthy();
    board.record_address = 0x2000_3000;
    let end = board.drive(core.start_rat(), 100);
    assert_eq!(end, RfcAction::Complete(RfcResult::Success));
    let record = RfcCommandStartRat {
        command_no: 0x080A,
        status: 0,
        next_op: 0,
        start_time: 0,
        start_trigger: 0,
        condition: RfcCondition(0x01),
        _reserved: 0,
        rat0: 0,
    };
    assert_eq!(
        board.log,
        vec![
            RfcAction::PlaceStartRat(record),
            RfcAction::QueryPower,
            RfcAction::ReadCommand,
            RfcAction::WriteCommand(0x2000_3000),
            RfcAction::ReadStatus,
        ]
    );
}

#[test]
fn full_bring_up_sequence() {
    let mut core = RFCore::new();
    let mut board = MockBoard::healthy();
    assert_eq!(board.drive(core.enable(), 1000), RfcAction::Complete(RfcResult::Success));
    assert_eq!(board.drive(core.set_mode(RfcMode::BLE), 1000), RfcAction::Complete(RfcResult::Success));
    assert_eq!(board.drive(core.setup(0), 1000), RfcAction::Complete(RfcResult::Success));
    assert_eq!(board.drive(core.start_rat(), 1000), RfcAction::Complete(RfcResult::Success));
    let words: Vec<u32> = board
        .log
        .iter()
        .filter_map(|action| match action {
            RfcAction::WriteCommand(word) => Some(*word),
            _ => None,
        })
        .collect();
    assert_eq!(words, vec![0x0607_0051, 0x040E_0001, 0x0406_0001, 0x2000_1000, 0x2000_1000]);
}
