//! What holds of whole runs of a procedure, whatever the hardware answers.

use crate::procedure::{
    accepted, bring_up_word, RfcAction, RfcFault, RfcProcedure, RfcReply, RfcResult, RfcStage,
    BLE_SUBMODULE, CMD0_PARAMETER, ENABLED_INTERRUPTS, INTERNAL_ERROR, MAX_TIMEOUT,
    RFC_BUS_REQUEST, RFC_CMD0, RFC_PING, RFC_PWR_ALL,
};
use crate::rfc::{
    enable_procedure, mode_procedure, radio_setup_record, setup_procedure, start_rat_procedure,
    start_rat_record, RfcMode,
};
use crate::rfc_commands::{command_word, direct_word, RfcCommand, RfcCommandType};
use vstd::prelude::*;

verus! {

impl RfcProcedure {
    /// The procedure after the replies, taken in order.
    pub open spec fn run(self, replies: Seq<RfcReply>) -> RfcProcedure
        decreases replies.len(),
    {
        if replies.len() == 0 {
            self
        } else {
            self.run(replies.drop_last()).after(replies.last())
        }
    }
}

/// The replies to a row of status reads.
pub open spec fn status_replies(reads: Seq<u32>) -> Seq<RfcReply> {
    Seq::new(reads.len(), |i: int| RfcReply::Status(reads[i]))
}

/// The replies to a row of reads of the command register.
pub open spec fn command_replies(reads: Seq<u32>) -> Seq<RfcReply> {
    Seq::new(reads.len(), |i: int| RfcReply::Command(reads[i]))
}

/// What a row of status reads decides about one command: success as soon as
/// one of the first `MAX_TIMEOUT` reads accepts; failure with the last of these
/// reads once all of them are made and none accepts; nothing before that.
pub open spec fn verdict(reads: Seq<u32>) -> Option<RfcResult> {
    if exists|k: int| 0 <= k < reads.len() && k < MAX_TIMEOUT && accepted(#[trigger] reads[k]) {
        Some(RfcResult::Success)
    } else if reads.len() >= MAX_TIMEOUT {
        Some(RfcResult::Error(reads[MAX_TIMEOUT - 1]))
    } else {
        None
    }
}

/// Where a transfer that has written `procedure.word` stands once the status
/// reads have decided `verdict`. A failure halts where the command had to succeed.
pub open spec fn decided(procedure: RfcProcedure, verdict: Option<RfcResult>) -> RfcStage {
    match verdict {
        None => RfcStage::Poll,
        Some(RfcResult::Success) => RfcStage::Finished(RfcResult::Success),
        Some(RfcResult::Error(status)) => if procedure.ensure {
            RfcStage::Halted(RfcFault::CommandRejected { command: procedure.word, status })
        } else {
            RfcStage::Finished(RfcResult::Error(status))
        },
    }
}

/// A procedure that is over ignores whatever is reported to it.
pub proof fn over_stays_over(procedure: RfcProcedure, replies: Seq<RfcReply>)
    requires
        procedure.is_over(),
    ensures
        procedure.run(replies) == procedure,
    decreases replies.len(),
{
    if replies.len() > 0 {
        over_stays_over(procedure, replies.drop_last());
    }
}

/// A command succeeds if and only if the low byte of the status register
/// becomes `0x01` within `MAX_TIMEOUT` reads, and a command that fails reports
/// the status word read last, as it was read.
///
/// `procedure` is a transfer that has just written its command word and has no
/// bring-up command queued behind it.
pub proof fn status_reads_decide(procedure: RfcProcedure, reads: Seq<u32>)
    requires
        procedure.stage == RfcStage::Poll,
        procedure.polls == 0,
        procedure.queued == 0,
    ensures
        procedure.run(status_replies(reads)).stage == decided(procedure, verdict(reads)),
        procedure.run(status_replies(reads)).word == procedure.word,
        verdict(reads) is None ==> procedure.run(status_replies(reads)) == (RfcProcedure {
            polls: reads.len() as u32,
            ..procedure
        }),
    decreases reads.len(),
{
    if reads.len() > 0 {
        let before = reads.drop_last();
        status_reads_decide(procedure, before);
        assert(status_replies(reads).drop_last() =~= status_replies(before));
        assert(forall|k: int| 0 <= k < before.len() ==> before[k] == reads[k]);
        if verdict(before) == Some(RfcResult::Success) {
            let k = choose|k: int|
                0 <= k < before.len() && k < MAX_TIMEOUT && accepted(#[trigger] before[k]);
            assert(accepted(reads[k]));
        } else if accepted(reads.last()) {
            assert(accepted(reads[reads.len() - 1]));
        }
    }
}

/// Running through two rows of replies one after the other is running through
/// their concatenation.
pub proof fn runs_compose(procedure: RfcProcedure, first: Seq<RfcReply>, second: Seq<RfcReply>)
    ensures
        procedure.run(first + second) == procedure.run(first).run(second),
    decreases second.len(),
{
    if second.len() == 0 {
        assert(first + second =~= first);
    } else {
        runs_compose(procedure, first, second.drop_last());
        assert((first + second).drop_last() =~= first + second.drop_last());
    }
}

/// A transfer does not touch the command register while it reads anything but
/// zero there: it goes on reading.
pub proof fn command_register_is_awaited(procedure: RfcProcedure, reads: Seq<u32>)
    requires
        procedure.stage == RfcStage::AwaitClear,
        forall|i: int| 0 <= i < reads.len() ==> reads[i] != 0,
    ensures
        procedure.run(command_replies(reads)) == procedure,
        procedure.awaits() == RfcAction::ReadCommand,
    decreases reads.len(),
{
    if reads.len() > 0 {
        command_register_is_awaited(procedure, reads.drop_last());
        assert(command_replies(reads).drop_last() =~= command_replies(reads.drop_last()));
        }
}

/// The whole of a transfer with nothing queued behind it. With the power
/// domain up, the command word is written once the command register has read
/// zero, after any number of reads that did not; the status reads then decide.
pub proof fn transfer_runs_to_verdict(
    word: u32,
    ensure: bool,
    busy: Seq<u32>,
    reads: Seq<u32>,
)
    requires
        forall|i: int| 0 <= i < busy.len() ==> busy[i] != 0,
    ensures
        ({
            let start = RfcProcedure::transfer(word, ensure, 0);
            let cleared = seq![RfcReply::Power(true)] + command_replies(busy) + seq![
                RfcReply::Command(0),
            ];
            let written = cleared + seq![RfcReply::Done];
            &&& start.awaits() == RfcAction::QueryPower
            &&& start.run(cleared).awaits() == RfcAction::WriteCommand(word)
            &&& start.run(written + status_replies(reads)).stage == decided(
                start,
                verdict(reads),
            )
        }),
{
    let start = RfcProcedure::transfer(word, ensure, 0);
    let powered = seq![RfcReply::Power(true)];
    let clear = seq![RfcReply::Command(0)];
    let done = seq![RfcReply::Done];
    let waiting = start.at(RfcStage::AwaitClear);
    let polling = start.at(RfcStage::Poll);

    single_reply(start, RfcReply::Power(true));
    runs_compose(start, powered, command_replies(busy));
    command_register_is_awaited(waiting, busy);
    runs_compose(start, powered + command_replies(busy), clear);
    single_reply(waiting, RfcReply::Command(0));
    let cleared = powered + command_replies(busy) + clear;
    runs_compose(start, cleared, done);
    single_reply(start.at(RfcStage::Write), RfcReply::Done);
    runs_compose(start, cleared + done, status_replies(reads));
    status_reads_decide(polling, reads);
}

/// A run through one reply is one step.
pub proof fn single_reply(procedure: RfcProcedure, reply: RfcReply)
    ensures
        procedure.run(seq![reply]) == procedure.after(reply),
{
    let one = seq![reply];
    assert(one.drop_last() =~= Seq::<RfcReply>::empty());
    assert(procedure.run(one.drop_last()) == procedure);
}

/// The command register is written only under guard: a procedure comes to
/// write it only from waiting for it to read zero, on a read of zero; and it
/// comes to wait for that only from the power check, on the report that the
/// power domain is up.
pub proof fn command_write_is_guarded(procedure: RfcProcedure, reply: RfcReply)
    ensures
        procedure.after(reply).stage == RfcStage::Write ==> procedure.stage
            == RfcStage::AwaitClear && reply == RfcReply::Command(0),
        procedure.after(reply).stage == RfcStage::AwaitClear ==> procedure.stage
            == RfcStage::AwaitClear || (procedure.stage == RfcStage::CheckPower && reply
            == RfcReply::Power(true)),
        procedure.after(reply).awaits() is WriteCommand ==> procedure.after(reply).stage
            == RfcStage::Write,
{
}

/// No command is issued while the power domain reports itself off: the transfer
/// halts on that report, and nothing that is reported later revives it.
pub proof fn powered_off_sends_nothing(
    word: u32,
    ensure: bool,
    queued: u8,
    replies: Seq<RfcReply>,
)
    ensures
        RfcProcedure::transfer(word, ensure, queued).after(RfcReply::Power(false)).run(
            replies,
        ).awaits() == RfcAction::Halt(RfcFault::PowerDomainOff),
{
    let halted = RfcProcedure::transfer(word, ensure, queued).after(RfcReply::Power(false));
    over_stays_over(halted, replies);
}

/// What is written to the command register for an immediate command is the
/// address of its record, whatever the record holds.
pub proof fn immediate_commands_travel_by_address<C: RfcCommand>(
    command: C,
    address: u32,
    ensure: bool,
)
    requires
        command.shape() == RfcCommandType::Immediate,
    ensures
        command_word(command.shape(), command.opcode(), command.parameter(), address)
            == address,
        RfcProcedure::transfer(
            command_word(command.shape(), command.opcode(), command.parameter(), address),
            ensure,
            0,
        ).run(seq![RfcReply::Power(true), RfcReply::Command(0)]).awaits()
            == RfcAction::WriteCommand(address),
{
    let start = RfcProcedure::transfer(address, ensure, 0);
    let powered = seq![RfcReply::Power(true)];
    let clear = seq![RfcReply::Command(0)];
    single_reply(start, RfcReply::Power(true));
    single_reply(start.at(RfcStage::AwaitClear), RfcReply::Command(0));
    runs_compose(start, powered, clear);
    assert(powered + clear =~= seq![RfcReply::Power(true), RfcReply::Command(0)]);
}

/// Setting the radio up before a mode is selected is a fault, detected before
/// any access to the hardware; the procedure never asks for one.
pub proof fn setup_needs_a_mode(reg_override: u32, replies: Seq<RfcReply>)
    ensures
        setup_procedure(None, reg_override).run(replies).awaits() == RfcAction::Halt(
            RfcFault::NoModeSelected,
        ),
{
    over_stays_over(setup_procedure(None, reg_override), replies);
}

/// BLE is the only mode that can be selected. Selecting it routes power to its
/// submodule and is then done; selecting any other mode is a fault and asks
/// nothing of the hardware.
pub proof fn only_ble_is_selected(mode: RfcMode, replies: Seq<RfcReply>)
    ensures
        mode == RfcMode::BLE ==> mode_procedure(mode).awaits() == RfcAction::SelectSubmodule(
            BLE_SUBMODULE,
        ) && mode_procedure(mode).after(RfcReply::Done).awaits() == RfcAction::Complete(
            RfcResult::Success,
        ),
        mode != RfcMode::BLE ==> mode_procedure(mode).run(replies).awaits() == RfcAction::Halt(
            RfcFault::UnsupportedMode,
        ),
{
    if mode != RfcMode::BLE {
        over_stays_over(mode_procedure(mode), replies);
    }
}

/// A bring-up does not proceed while the power domain does not report itself
/// up: as long as no reply says so, it asks for nothing beyond switching power
/// and clock on and querying the domain. It never touches the doorbell.
pub proof fn bring_up_waits_for_power(replies: Seq<RfcReply>)
    requires
        forall|i: int| 0 <= i < replies.len() ==> replies[i] != RfcReply::Power(true),
    ensures
        ({
            let action = enable_procedure().run(replies).awaits();
            ||| action == RfcAction::EnablePowerDomain
            ||| action == RfcAction::EnableClock
            ||| action == RfcAction::QueryPower
            ||| action == RfcAction::Halt(RfcFault::UnexpectedReply)
        }),
        enable_procedure().run(replies).stage != RfcStage::CheckPower,
    decreases replies.len(),
{
    if replies.len() > 0 {
        bring_up_waits_for_power(replies.drop_last());
    }
}

/// The order of a bring-up. Power domain and clock are switched on; the power
/// domain is queried until it reports itself up; then, each once and in this
/// order: the real-time clock is told to synchronise, every module power bit is
/// set, the acknowledgment flag is cleared, the internal-error interrupt gets
/// its own vector, the three completion interrupts are enabled and the
/// completion flags are cleared. The first bring-up command follows, with two
/// more queued behind it.
pub proof fn bring_up_order(waits: Seq<RfcReply>)
    requires
        forall|i: int| 0 <= i < waits.len() ==> waits[i] == RfcReply::Power(false),
    ensures
        ({
            let done = RfcReply::Done;
            let up = enable_procedure().run(
                seq![done, done] + waits + seq![RfcReply::Power(true)],
            );
            &&& enable_procedure().awaits() == RfcAction::EnablePowerDomain
            &&& enable_procedure().after(done).awaits() == RfcAction::EnableClock
            &&& enable_procedure().run(seq![done, done] + waits).awaits()
                == RfcAction::QueryPower
            &&& up.awaits() == RfcAction::EnableRtcSync
            &&& up.after(done).awaits() == RfcAction::WritePowerControl(RFC_PWR_ALL)
            &&& up.after(done).after(done).awaits() == RfcAction::WriteAckFlag(0)
            &&& up.after(done).after(done).after(done).awaits() == RfcAction::WriteVectorSelect(
                INTERNAL_ERROR,
            )
            &&& up.after(done).after(done).after(done).after(done).awaits()
                == RfcAction::WriteInterruptEnable(ENABLED_INTERRUPTS)
            &&& up.after(done).after(done).after(done).after(done).after(done).awaits()
                == RfcAction::WriteInterruptFlags(0)
            &&& up.after(done).after(done).after(done).after(done).after(done).after(done)
                == RfcProcedure::transfer(bring_up_word(3), true, 2)
        }),
{
    let done = RfcReply::Done;
    let start = enable_procedure();
    let waiting = start.at(RfcStage::AwaitPower);
    single_reply(start, done);
    single_reply(start.after(done), done);
    runs_compose(start, seq![done], seq![done]);
    assert(seq![done] + seq![done] =~= seq![done, done]);
    power_is_awaited(waiting, waits);
    runs_compose(start, seq![done, done], waits);
    runs_compose(start, seq![done, done] + waits, seq![RfcReply::Power(true)]);
    single_reply(waiting, RfcReply::Power(true));
}

/// A bring-up that waits for the power domain goes on waiting while the domain
/// reports itself off.
pub proof fn power_is_awaited(procedure: RfcProcedure, waits: Seq<RfcReply>)
    requires
        procedure.stage == RfcStage::AwaitPower,
        forall|i: int| 0 <= i < waits.len() ==> waits[i] == RfcReply::Power(false),
    ensures
        procedure.run(waits) == procedure,
    decreases waits.len(),
{
    if waits.len() > 0 {
        power_is_awaited(procedure, waits.drop_last());
    }
}

/// Status reads that do not accept leave a transfer polling, as long as the
/// bound allows one more read.
pub proof fn unanswered_polls(procedure: RfcProcedure, reads: Seq<u32>)
    requires
        procedure.stage == RfcStage::Poll,
        procedure.polls == 0,
        reads.len() < MAX_TIMEOUT,
        forall|i: int| 0 <= i < reads.len() ==> !accepted(reads[i]),
    ensures
        procedure.run(status_replies(reads)) == (RfcProcedure {
            polls: reads.len() as u32,
            ..procedure
        }),
    decreases reads.len(),
{
    if reads.len() > 0 {
        unanswered_polls(procedure, reads.drop_last());
        assert(status_replies(reads).drop_last() =~= status_replies(reads.drop_last()));
        }
}

/// The bring-up commands go out one after the other, each only when the one
/// before it was accepted: the opening command, the bus request, the ping. A
/// bring-up command that is not acknowledged within the bound halts the
/// bring-up with that command and the status read last.
pub proof fn bring_up_commands_chain(procedure: RfcProcedure, reads: Seq<u32>)
    requires
        procedure.stage == RfcStage::Poll,
        procedure.polls == 0,
        procedure.ensure,
        0 < reads.len() <= MAX_TIMEOUT,
        forall|i: int| 0 <= i < reads.len() - 1 ==> !accepted(reads[i]),
    ensures
        accepted(reads.last()) && procedure.queued > 0 ==> procedure.run(status_replies(reads))
            == RfcProcedure::transfer(
            bring_up_word(procedure.queued),
            true,
            (procedure.queued - 1) as u8,
        ),
        accepted(reads.last()) && procedure.queued == 0 ==> procedure.run(
            status_replies(reads),
        ).awaits() == RfcAction::Complete(RfcResult::Success),
        !accepted(reads.last()) && reads.len() == MAX_TIMEOUT ==> procedure.run(
            status_replies(reads),
        ).awaits() == RfcAction::Halt(
            RfcFault::CommandRejected { command: procedure.word, status: reads.last() },
        ),
        bring_up_word(3) == direct_word(RFC_CMD0, CMD0_PARAMETER),
        bring_up_word(2) == direct_word(RFC_BUS_REQUEST, 1),
        bring_up_word(1) == direct_word(RFC_PING, 0),
{
    unanswered_polls(procedure, reads.drop_last());
    assert(status_replies(reads).drop_last() =~= status_replies(reads.drop_last()));
}

/// Status reads that end with the first accepting one, within the bound.
pub open spec fn accepted_at_last(reads: Seq<u32>) -> bool {
    &&& 0 < reads.len() <= MAX_TIMEOUT
    &&& accepted(reads.last())
    &&& forall|i: int| 0 <= i < reads.len() - 1 ==> !accepted(reads[i])
}

/// What a transfer hears when the power domain is up, the command register
/// reads `busy` before it reads zero, and the status register then reads `reads`.
pub open spec fn transfer_replies(busy: Seq<u32>, reads: Seq<u32>) -> Seq<RfcReply> {
    seq![RfcReply::Power(true)] + command_replies(busy) + seq![
        RfcReply::Command(0),
        RfcReply::Done,
    ] + status_replies(reads)
}

/// A transfer whose command is accepted within the bound hands over to the
/// bring-up command queued behind it, or finishes with success if there is none.
pub proof fn accepted_transfer_hands_over(
    word: u32,
    ensure: bool,
    queued: u8,
    busy: Seq<u32>,
    reads: Seq<u32>,
)
    requires
        forall|i: int| 0 <= i < busy.len() ==> busy[i] != 0,
        accepted_at_last(reads),
    ensures
        queued > 0 ==> RfcProcedure::transfer(word, ensure, queued).run(
            transfer_replies(busy, reads),
        ) == RfcProcedure::transfer(bring_up_word(queued), ensure, (queued - 1) as u8),
        queued == 0 ==> RfcProcedure::transfer(word, ensure, queued).run(
            transfer_replies(busy, reads),
        ).awaits() == RfcAction::Complete(RfcResult::Success),
{
    let start = RfcProcedure::transfer(word, ensure, queued);
    let powered = seq![RfcReply::Power(true)];
    let written = seq![RfcReply::Command(0), RfcReply::Done];
    let waiting = start.at(RfcStage::AwaitClear);
    let polling = start.at(RfcStage::Poll);

    single_reply(start, RfcReply::Power(true));
    runs_compose(start, powered, command_replies(busy));
    command_register_is_awaited(waiting, busy);

    single_reply(waiting, RfcReply::Command(0));
    single_reply(start.at(RfcStage::Write), RfcReply::Done);
    runs_compose(waiting, seq![RfcReply::Command(0)], seq![RfcReply::Done]);
    assert(seq![RfcReply::Command(0)] + seq![RfcReply::Done] =~= written);
    runs_compose(start, powered + command_replies(busy), written);

    runs_compose(start, powered + command_replies(busy) + written, status_replies(reads));
    unanswered_polls(polling, reads.drop_last());
    assert(status_replies(reads).drop_last() =~= status_replies(reads.drop_last()));
}

/// A bring-up succeeds whenever the power domain comes up at last and each of
/// the three bring-up commands is accepted within the bound, however long the
/// domain takes and however often the command register reads busy. The
/// commands go out in their order: the opening command, the bus request, the
/// ping.
pub proof fn bring_up_succeeds(
    waits: Seq<RfcReply>,
    busy: Seq<Seq<u32>>,
    reads: Seq<Seq<u32>>,
)
    requires
        forall|i: int| 0 <= i < waits.len() ==> waits[i] == RfcReply::Power(false),
        busy.len() == 3,
        reads.len() == 3,
        forall|c: int, i: int| 0 <= c < 3 && 0 <= i < busy[c].len() ==> busy[c][i] != 0,
        forall|c: int| 0 <= c < 3 ==> accepted_at_last(#[trigger] reads[c]),
    ensures
        ({
            let done = RfcReply::Done;
            let prologue = seq![done, done] + waits + seq![RfcReply::Power(true)] + seq![
                done,
                done,
                done,
                done,
                done,
                done,
            ];
            let first = enable_procedure().run(prologue);
            let second = first.run(transfer_replies(busy[0], reads[0]));
            let third = second.run(transfer_replies(busy[1], reads[1]));
            let end = third.run(transfer_replies(busy[2], reads[2]));
            &&& first == RfcProcedure::transfer(direct_word(RFC_CMD0, CMD0_PARAMETER), true, 2)
            &&& second == RfcProcedure::transfer(direct_word(RFC_BUS_REQUEST, 1), true, 1)
            &&& third == RfcProcedure::transfer(direct_word(RFC_PING, 0), true, 0)
            &&& end.awaits() == RfcAction::Complete(RfcResult::Success)
            &&& end == enable_procedure().run(
                prologue + transfer_replies(busy[0], reads[0]) + transfer_replies(
                    busy[1],
                    reads[1],
                ) + transfer_replies(busy[2], reads[2]),
            )
        }),
{
    let done = RfcReply::Done;
    let start = enable_procedure();
    let powered = seq![done, done] + waits + seq![RfcReply::Power(true)];
    let writes = seq![done, done, done, done, done, done];
    let up = start.run(powered);
    bring_up_order(waits);
    six_replies(up, done);
    runs_compose(start, powered, writes);
    let first = start.run(powered + writes);

    assert(accepted_at_last(reads[0]));
    assert(accepted_at_last(reads[1]));
    assert(accepted_at_last(reads[2]));
    accepted_transfer_hands_over(bring_up_word(3), true, 2, busy[0], reads[0]);
    accepted_transfer_hands_over(bring_up_word(2), true, 1, busy[1], reads[1]);
    accepted_transfer_hands_over(bring_up_word(1), true, 0, busy[2], reads[2]);

    let one = transfer_replies(busy[0], reads[0]);
    let two = transfer_replies(busy[1], reads[1]);
    let three = transfer_replies(busy[2], reads[2]);
    runs_compose(start, powered + writes, one);
    runs_compose(start, powered + writes + one, two);
    runs_compose(start, powered + writes + one + two, three);
}

/// A run through six equal replies is six steps.
proof fn six_replies(procedure: RfcProcedure, reply: RfcReply)
    ensures
        procedure.run(seq![reply, reply, reply, reply, reply, reply]) == procedure.after(
            reply,
        ).after(reply).after(reply).after(reply).after(reply).after(reply),
{
    let all = seq![reply, reply, reply, reply, reply, reply];
    let five = all.drop_last();
    let four = five.drop_last();
    let three = four.drop_last();
    let two = three.drop_last();
    let one = two.drop_last();
    assert(one.drop_last() =~= Seq::<RfcReply>::empty());
    assert(procedure.run(one.drop_last()) == procedure);
    assert(procedure.run(one) == procedure.after(reply));
    assert(procedure.run(two) == procedure.run(one).after(reply));
    assert(procedure.run(three) == procedure.run(two).after(reply));
    assert(procedure.run(four) == procedure.run(three).after(reply));
    assert(procedure.run(five) == procedure.run(four).after(reply));
    assert(procedure.run(all) == procedure.run(five).after(reply));
}

/// A record that the driver builds is sent by the address at which the caller
/// placed it, and has to succeed: the setup record and the timer record alike.
pub proof fn placed_records_are_sent_by_address(
    mode: RfcMode,
    reg_override: u32,
    address: u32,
    busy: Seq<u32>,
    reads: Seq<u32>,
)
    requires
        forall|i: int| 0 <= i < busy.len() ==> busy[i] != 0,
        accepted_at_last(reads),
    ensures
        setup_procedure(Some(mode), reg_override).awaits() == RfcAction::PlaceRadioSetup(
            radio_setup_record(mode, reg_override),
        ),
        setup_procedure(Some(mode), reg_override).after(RfcReply::Address(address))
            == RfcProcedure::transfer(address, true, 0),
        start_rat_procedure().awaits() == RfcAction::PlaceStartRat(start_rat_record()),
        start_rat_procedure().after(RfcReply::Address(address)) == RfcProcedure::transfer(
            address,
            true,
            0,
        ),
        RfcProcedure::transfer(address, true, 0).run(transfer_replies(busy, reads)).awaits()
            == RfcAction::Complete(RfcResult::Success),
{
    accepted_transfer_hands_over(address, true, 0, busy, reads);
}

} // verus!
