//! What holds of a whole update session, and of a whole download, from the
//! first step to the last, whatever the device or the server answers.

use crate::download::{
    download_begin, download_next, fresh, lemma_download_keeps_sound, lemma_percent_after_rises,
    download_notes, finished_notes, sound, DownloadCommand, DownloadEnd, DownloadOutcome, DownloadReplyView, DownloadState,
};
use crate::messages::{MessageView, PageMessagesView, StepMessagesView};
use crate::progress::{lemma_percent_of_bounds, lemma_percent_of_monotonic};
use crate::update::{
    begin, fail, idle, initial, lemma_next_keeps_valid, next, percent_byte, valid, DeviceCommand,
    Outcome,
    ProtocolError, ReplyView, SessionState, Stage, Terminal,
};
use vstd::prelude::*;

verus! {

/// The steps of a session for an image of `total` bytes: the first step,
/// then one step for each answer of the device, in order.
pub open spec fn outcomes(total: u32, replies: Seq<ReplyView>) -> Seq<Outcome>
    decreases replies.len(),
{
    if replies.len() == 0 {
        seq![begin(initial(total))]
    } else {
        let earlier = outcomes(total, replies.drop_last());
        earlier.push(next(earlier.last().state, replies.last()))
    }
}

/// The number of steps that hand out the reboot command.
pub open spec fn reboots(steps: Seq<Outcome>) -> nat
    decreases steps.len(),
{
    if steps.len() == 0 {
        0
    } else {
        reboots(steps.drop_last()) + if steps.last().command == Some(DeviceCommand::Reboot) {
            1nat
        } else {
            0nat
        }
    }
}

/// The number of steps that hand out any command after the session ended.
pub open spec fn commands_after_end(steps: Seq<Outcome>) -> nat
    decreases steps.len(),
{
    if steps.len() <= 1 {
        0
    } else {
        let earlier = steps.drop_last();
        commands_after_end(earlier) + if earlier.last().state.stage == Stage::Rebooted
            && steps.last().command is Some {
            1nat
        } else {
            0nat
        }
    }
}

/// Everything the steps tell the user, in order.
pub open spec fn all_notes(steps: Seq<Outcome>) -> Seq<PageMessagesView>
    decreases steps.len(),
{
    if steps.len() == 0 {
        Seq::empty()
    } else {
        all_notes(steps.drop_last()) + steps.last().notes
    }
}

/// The number of notes that say the update is complete.
pub open spec fn completions(notes: Seq<PageMessagesView>) -> nat
    decreases notes.len(),
{
    if notes.len() == 0 {
        0
    } else {
        completions(notes.drop_last()) + if notes.last() is UpdateFirmwareComplete {
            1nat
        } else {
            0nat
        }
    }
}

/// Whether no percentage is announced twice in a row.
pub open spec fn no_repeated_percent(notes: Seq<PageMessagesView>) -> bool {
    forall|i: int|
        0 <= i < notes.len() - 1 && #[trigger] notes[i] is UpdateFirmwarePercent && notes[i
            + 1] is UpdateFirmwarePercent ==> notes[i]->UpdateFirmwarePercent_0 != notes[i
            + 1]->UpdateFirmwarePercent_0
}

/// The place of a stage in the order of stages.
pub open spec fn stage_rank(stage: Stage) -> nat {
    match stage {
        Stage::Idle => 0,
        Stage::EraseStorage => 1,
        Stage::Upload => 2,
        Stage::Validate => 3,
        Stage::HardwareVerify => 4,
        Stage::Finalize => 5,
        Stage::Rebooted => 6,
    }
}

/// The completion notes of two runs of notes add up.
proof fn lemma_completions_add(left: Seq<PageMessagesView>, right: Seq<PageMessagesView>)
    ensures
        completions(left + right) == completions(left) + completions(right),
    decreases right.len(),
{
    if right.len() == 0 {
        assert(left + right =~= left);
    } else {
        lemma_completions_add(left, right.drop_last());
        assert((left + right).drop_last() =~= left + right.drop_last());
        assert((left + right).last() == right.last());
    }
}

/// A run of up to five notes holds as many completion notes as its last
/// note is one, when none of the others is.
proof fn lemma_completions_of_step(notes: Seq<PageMessagesView>)
    requires
        forall|i: int| 0 <= i < notes.len() - 1 ==> !(#[trigger] notes[i] is UpdateFirmwareComplete),
    ensures
        completions(notes) == if notes.len() > 0 && notes.last() is UpdateFirmwareComplete {
            1nat
        } else {
            0nat
        },
    decreases notes.len(),
{
    if notes.len() > 0 {
        let front = notes.drop_last();
        assert forall|i: int| 0 <= i < front.len() implies !(#[trigger] front[i]
            is UpdateFirmwareComplete) by {
            assert(front[i] == notes[i]);
        }
        lemma_completions_none(front);
    }
}

/// A run of notes without a completion note counts none.
proof fn lemma_completions_none(notes: Seq<PageMessagesView>)
    requires
        forall|i: int| 0 <= i < notes.len() ==> !(#[trigger] notes[i] is UpdateFirmwareComplete),
    ensures
        completions(notes) == 0,
    decreases notes.len(),
{
    if notes.len() > 0 {
        let front = notes.drop_last();
        assert forall|i: int| 0 <= i < front.len() implies !(#[trigger] front[i]
            is UpdateFirmwareComplete) by {
            assert(front[i] == notes[i]);
        }
        lemma_completions_none(front);
    }
}

/// What one step tells the user ends with a completion note exactly when
/// the step hands out the reboot command, and holds no other.
proof fn lemma_step_completes_on_reboot(state: SessionState, reply: ReplyView)
    requires
        valid(state),
    ensures
        completions(next(state, reply).notes) == if next(state, reply).command == Some(
            DeviceCommand::Reboot,
        ) {
            1nat
        } else {
            0nat
        },
        completions(begin(state).notes) == 0,
        begin(state).command != Some(DeviceCommand::Reboot),
        (next(state, reply).command == Some(DeviceCommand::Reboot)) == (state.stage
            != Stage::Rebooted && next(state, reply).state.stage == Stage::Rebooted),
        state.stage == Stage::Rebooted ==> next(state, reply) == idle(state),
{
    lemma_completions_of_step(next(state, reply).notes);
    lemma_completions_of_step(begin(state).notes);
}

/// A session reboots the device exactly once, in the step that ends it,
/// and never before; that step, and no other, tells the user that the
/// update is complete. After it no command is handed out.
pub proof fn lemma_one_reboot(total: u32, replies: Seq<ReplyView>)
    requires
        total > 0,
    ensures
        valid(outcomes(total, replies).last().state),
        outcomes(total, replies).len() == replies.len() + 1,
        reboots(outcomes(total, replies)) == if outcomes(total, replies).last().state.stage
            == Stage::Rebooted {
            1nat
        } else {
            0nat
        },
        completions(all_notes(outcomes(total, replies))) == reboots(outcomes(total, replies)),
        commands_after_end(outcomes(total, replies)) == 0,
    decreases replies.len(),
{
    let steps = outcomes(total, replies);
    if replies.len() == 0 {
        let first = begin(initial(total));
        lemma_next_keeps_valid(initial(total), ReplyView::Done);
        lemma_step_completes_on_reboot(initial(total), ReplyView::Done);
        assert(steps.drop_last() =~= Seq::<Outcome>::empty());
        assert(reboots(steps.drop_last()) == 0);
        assert(all_notes(steps.drop_last()) =~= Seq::<PageMessagesView>::empty());
        assert(all_notes(steps) =~= first.notes);
    } else {
        let earlier = outcomes(total, replies.drop_last());
        lemma_one_reboot(total, replies.drop_last());
        let before = earlier.last().state;
        lemma_next_keeps_valid(before, replies.last());
        lemma_step_completes_on_reboot(before, replies.last());
        assert(steps.drop_last() =~= earlier);
        lemma_completions_add(all_notes(earlier), steps.last().notes);
    }
}

/// Within the notes of a session no percentage follows itself: a value
/// that was announced is not announced again until another one was, or a
/// new stage has begun.
pub proof fn lemma_no_repeated_percent(total: u32, replies: Seq<ReplyView>)
    requires
        total > 0,
    ensures
        no_repeated_percent(all_notes(outcomes(total, replies))),
    decreases replies.len(),
{
    lemma_percent_trail(total, replies);
}

/// The induction behind `lemma_no_repeated_percent`: the last percentage
/// in the notes is the one that the session remembers.
proof fn lemma_percent_trail(total: u32, replies: Seq<ReplyView>)
    requires
        total > 0,
    ensures
        valid(outcomes(total, replies).last().state),
        no_repeated_percent(all_notes(outcomes(total, replies))),
        ({
            let notes = all_notes(outcomes(total, replies));
            let state = outcomes(total, replies).last().state;
            notes.len() > 0 && notes.last() is UpdateFirmwarePercent && state.stage
                != Stage::Rebooted ==> notes.last()->UpdateFirmwarePercent_0 == state.last_percent
        }),
    decreases replies.len(),
{
    let steps = outcomes(total, replies);
    if replies.len() == 0 {
        let first = begin(initial(total));
        lemma_next_keeps_valid(initial(total), ReplyView::Done);
        assert(all_notes(steps.drop_last()) =~= Seq::<PageMessagesView>::empty());
        assert(all_notes(steps) =~= first.notes);
    } else {
        let earlier = outcomes(total, replies.drop_last());
        lemma_percent_trail(total, replies.drop_last());
        let before = earlier.last().state;
        let step = next(before, replies.last());
        lemma_next_keeps_valid(before, replies.last());
        assert(steps.drop_last() =~= earlier);
        let old_notes = all_notes(earlier);
        let notes = all_notes(steps);
        assert(notes == old_notes + step.notes);
        lemma_step_notes_shape(before, replies.last());
        assert forall|i: int|
            0 <= i < notes.len() - 1 && #[trigger] notes[i] is UpdateFirmwarePercent && notes[i
                + 1] is UpdateFirmwarePercent implies notes[i]->UpdateFirmwarePercent_0
            != notes[i + 1]->UpdateFirmwarePercent_0 by {
            if i + 1 < old_notes.len() {
                assert(notes[i] == old_notes[i]);
                assert(notes[i + 1] == old_notes[i + 1]);
            } else if i + 1 == old_notes.len() {
                assert(notes[i] == old_notes.last());
                assert(notes[i + 1] == step.notes[0]);
            } else {
                assert(notes[i] == step.notes[i - old_notes.len()]);
                assert(notes[i + 1] == step.notes[i + 1 - old_notes.len()]);
            }
        }
        if step.notes.len() > 0 {
            assert(notes.last() == step.notes.last());
        } else {
            assert(notes =~= old_notes);
        }
    }
}

/// The shape of what one step tells the user: at most one percentage for
/// the stage that is under way, which differs from the last one announced,
/// and then either nothing, or the opening of the next stage, or the end
/// of the session.
proof fn lemma_step_notes_shape(state: SessionState, reply: ReplyView)
    requires
        valid(state),
    ensures
        ({
            let step = next(state, reply);
            &&& state.stage == Stage::Rebooted ==> step.notes.len() == 0
            &&& step.notes.len() > 0 && step.notes[0] is UpdateFirmwarePercent
                ==> step.notes[0]->UpdateFirmwarePercent_0 != state.last_percent
            &&& forall|i: int|
                0 <= i < step.notes.len() - 1 ==> !(#[trigger] step.notes[i]
                    is UpdateFirmwarePercent && step.notes[i + 1] is UpdateFirmwarePercent)
            &&& step.notes.len() > 0 && step.notes.last() is UpdateFirmwarePercent
                && step.state.stage != Stage::Rebooted
                ==> step.notes.last()->UpdateFirmwarePercent_0 == step.state.last_percent
            &&& step.notes.len() == 0 && step.state.stage != Stage::Rebooted
                ==> step.state.last_percent == state.last_percent
        }),
{
}

/// The percentage that an answer of the device reports, where it reports
/// one of its own.
pub open spec fn reported_percent(reply: ReplyView) -> Option<u8> {
    match reply {
        ReplyView::EraseProgress(progress) => Some(percent_byte(progress as nat, 255)),
        ReplyView::Status { total, done, .. } => Some(percent_byte(done as nat, total as nat)),
        _ => None,
    }
}

/// Whether the device reports less progress than was announced last.
pub open spec fn falls_back(state: SessionState, reply: ReplyView) -> bool {
    match reported_percent(reply) {
        Some(percent) => percent < state.last_percent,
        None => false,
    }
}

/// Within a stage each percentage that is announced is higher than the one
/// before, unless the device itself reports less than it did, and none is
/// above one hundred. While an image is sent or checked the device reports
/// no percentage of its own, so there the percentage always rises.
pub proof fn lemma_percent_rises(state: SessionState, reply: ReplyView)
    requires
        valid(state),
    ensures
        ({
            let step = next(state, reply);
            &&& !falls_back(state, reply) && step.notes.len() > 0
                && step.notes[0] is UpdateFirmwarePercent
                ==> step.notes[0]->UpdateFirmwarePercent_0 > state.last_percent
            &&& !falls_back(state, reply) && step.state.stage == state.stage
                ==> step.state.last_percent >= state.last_percent
            &&& forall|i: int|
                0 <= i < step.notes.len() && #[trigger] step.notes[i] is UpdateFirmwarePercent
                    ==> step.notes[i]->UpdateFirmwarePercent_0 <= 100
            &&& (state.stage == Stage::Upload || state.stage == Stage::Validate)
                && step.notes.len() > 0 && step.notes[0] is UpdateFirmwarePercent
                ==> step.notes[0]->UpdateFirmwarePercent_0 > state.last_percent
        }),
{
    let total = state.total as nat;
    lemma_next_keeps_valid(state, reply);
    match state.awaiting {
        None => {},
        Some(command) => {
            match reply {
                ReplyView::EraseProgress(progress) => {
                    lemma_percent_of_bounds(progress as nat, 255);
                },
                ReplyView::Status { total, done, .. } => {
                    lemma_percent_of_bounds(done as nat, total as nat);
                },
                ReplyView::Done => {
                    if let DeviceCommand::SendPacket { offset, length } = command {
                        lemma_percent_of_monotonic(
                            state.sent as nat,
                            (state.sent + length) as nat,
                            total,
                        );
                        lemma_percent_of_bounds((state.sent + length) as nat, total);
                    }
                },
                ReplyView::Validated { hash, count } => {
                    if state.processed + count <= state.total {
                        lemma_percent_of_monotonic(
                            state.processed as nat,
                            (state.processed + count) as nat,
                            total,
                        );
                        lemma_percent_of_bounds((state.processed + count) as nat, total);
                    }
                },
                _ => {},
            }
        },
    }
}

/// Whether each percentage that directly follows another is higher.
pub open spec fn rising_percent(notes: Seq<PageMessagesView>) -> bool {
    forall|i: int|
        0 <= i < notes.len() - 1 && #[trigger] notes[i] is UpdateFirmwarePercent && notes[i
            + 1] is UpdateFirmwarePercent ==> notes[i]->UpdateFirmwarePercent_0 < notes[i
            + 1]->UpdateFirmwarePercent_0
}

/// Whether the device never reports less progress than was announced
/// last, at any point of the session.
pub open spec fn steady(total: u32, replies: Seq<ReplyView>) -> bool {
    forall|k: int|
        0 <= k < replies.len() ==> !falls_back(
            outcomes(total, #[trigger] replies.take(k)).last().state,
            replies[k],
        )
}

/// With a device that never reports less than it did, the percentages of
/// every stage rise: in the notes of the whole session a percentage that
/// directly follows another is higher. (The notes of a new stage begin
/// with its name, so two percentages in a row belong to one stage.)
pub proof fn lemma_percent_rises_throughout(total: u32, replies: Seq<ReplyView>)
    requires
        total > 0,
        steady(total, replies),
    ensures
        rising_percent(all_notes(outcomes(total, replies))),
    decreases replies.len(),
{
    lemma_percent_trail(total, replies);
    let steps = outcomes(total, replies);
    if replies.len() == 0 {
        let first = begin(initial(total));
        assert(all_notes(steps.drop_last()) =~= Seq::<PageMessagesView>::empty());
        assert(all_notes(steps) =~= first.notes);
    } else {
        let shorter = replies.drop_last();
        assert forall|k: int| 0 <= k < shorter.len() implies !falls_back(
            outcomes(total, #[trigger] shorter.take(k)).last().state,
            shorter[k],
        ) by {
            assert(shorter.take(k) =~= replies.take(k));
        }
        lemma_percent_rises_throughout(total, shorter);
        lemma_percent_trail(total, shorter);
        let earlier = outcomes(total, shorter);
        let before = earlier.last().state;
        let step = next(before, replies.last());
        assert(replies.take(replies.len() - 1) =~= shorter);
        assert(!falls_back(before, replies.last()));
        lemma_percent_rises(before, replies.last());
        lemma_step_notes_shape(before, replies.last());
        assert(steps.drop_last() =~= earlier);
        let old_notes = all_notes(earlier);
        let notes = all_notes(steps);
        assert(notes == old_notes + step.notes);
        assert forall|i: int|
            0 <= i < notes.len() - 1 && #[trigger] notes[i] is UpdateFirmwarePercent && notes[i
                + 1] is UpdateFirmwarePercent implies notes[i]->UpdateFirmwarePercent_0 < notes[i
            + 1]->UpdateFirmwarePercent_0 by {
            if i + 1 < old_notes.len() {
                assert(notes[i] == old_notes[i]);
                assert(notes[i + 1] == old_notes[i + 1]);
            } else if i + 1 == old_notes.len() {
                assert(notes[i] == old_notes.last());
                assert(notes[i + 1] == step.notes[0]);
            } else {
                assert(notes[i] == step.notes[i - old_notes.len()]);
                assert(notes[i + 1] == step.notes[i + 1 - old_notes.len()]);
            }
        }
    }
}

/// Whether no percentage among the notes is above one hundred.
pub open spec fn within_hundred(notes: Seq<PageMessagesView>) -> bool {
    forall|i: int|
        0 <= i < notes.len() && #[trigger] notes[i] is UpdateFirmwarePercent
            ==> notes[i]->UpdateFirmwarePercent_0 <= 100
}

/// Whatever the device answers, no percentage that a session announces is
/// above one hundred.
pub proof fn lemma_percent_within_hundred(total: u32, replies: Seq<ReplyView>)
    requires
        total > 0,
    ensures
        valid(outcomes(total, replies).last().state),
        within_hundred(all_notes(outcomes(total, replies))),
    decreases replies.len(),
{
    let steps = outcomes(total, replies);
    if replies.len() == 0 {
        let first = begin(initial(total));
        lemma_next_keeps_valid(initial(total), ReplyView::Done);
        assert(all_notes(steps.drop_last()) =~= Seq::<PageMessagesView>::empty());
        assert(all_notes(steps) =~= first.notes);
    } else {
        let earlier = outcomes(total, replies.drop_last());
        lemma_percent_within_hundred(total, replies.drop_last());
        let before = earlier.last().state;
        let step = next(before, replies.last());
        lemma_next_keeps_valid(before, replies.last());
        lemma_percent_rises(before, replies.last());
        assert(steps.drop_last() =~= earlier);
        let old_notes = all_notes(earlier);
        let notes = all_notes(steps);
        assert(notes == old_notes + step.notes);
        assert forall|i: int|
            0 <= i < notes.len() && #[trigger] notes[i] is UpdateFirmwarePercent implies notes[i]->UpdateFirmwarePercent_0
            <= 100 by {
            if i < old_notes.len() {
                assert(notes[i] == old_notes[i]);
            } else {
                assert(notes[i] == step.notes[i - old_notes.len()]);
            }
        }
    }
}

/// A device that claims to have checked more bytes than the image holds
/// ends the session with a length mismatch and a reboot, although its
/// answer was no failure.
pub proof fn lemma_overrun_is_fatal(state: SessionState, hash: u32, count: u32)
    requires
        valid(state),
        state.stage == Stage::Validate,
        state.processed + count > state.total,
    ensures
        next(state, ReplyView::Validated { hash, count }) == fail(
            state,
            ProtocolError::LengthMismatch,
            Seq::empty(),
        ),
        next(state, ReplyView::Validated { hash, count }).command == Some(DeviceCommand::Reboot),
        next(state, ReplyView::Validated { hash, count }).state.terminal == Terminal::Error(
            ProtocolError::LengthMismatch,
        ),
{
}

/// A step never goes back: the session stays in its stage, moves on to the
/// one that follows, or ends.
pub proof fn lemma_stages_in_order(state: SessionState, reply: ReplyView)
    requires
        valid(state),
    ensures
        ({
            let after = next(state, reply).state.stage;
            ||| after == state.stage
            ||| stage_rank(after) == stage_rank(state.stage) + 1
            ||| after == Stage::Rebooted
        }),
        next(state, reply).state.stage == Stage::Rebooted && state.stage != Stage::Rebooted
            && next(state, reply).state.terminal == Terminal::Success ==> state.stage
            == Stage::Finalize,
        begin(state).state.stage == Stage::EraseStorage || begin(state).state == state,
{
}

/// Any failure that the device reports ends the session at once, with a
/// reboot, whichever stage it is in.
pub proof fn lemma_failure_reboots(state: SessionState, detail: Seq<char>)
    requires
        valid(state),
        state.stage != Stage::Idle,
        state.stage != Stage::Rebooted,
    ensures
        next(state, ReplyView::Failed(detail)).command == Some(DeviceCommand::Reboot),
        next(state, ReplyView::Failed(detail)).state.stage == Stage::Rebooted,
        next(state, ReplyView::Failed(detail)).state.terminal is Error,
{
}

/// The steps of a download to `path`: the first step, then one step for
/// each answer, in order.
pub open spec fn download_outcomes(path: Seq<char>, replies: Seq<DownloadReplyView>) -> Seq<
    DownloadOutcome,
>
    decreases replies.len(),
{
    if replies.len() == 0 {
        seq![download_begin(fresh())]
    } else {
        let earlier = download_outcomes(path, replies.drop_last());
        earlier.push(download_next(earlier.last().state, path, replies.last()))
    }
}

/// Everything the steps of a download tell the user interface, in order.
pub open spec fn download_messages(steps: Seq<DownloadOutcome>) -> Seq<MessageView>
    decreases steps.len(),
{
    if steps.len() == 0 {
        Seq::empty()
    } else {
        download_messages(steps.drop_last()) + steps.last().notes
    }
}

/// The download percentages among some messages, in order.
pub open spec fn percents_in(notes: Seq<MessageView>) -> Seq<u8>
    decreases notes.len(),
{
    if notes.len() == 0 {
        Seq::empty()
    } else {
        let front = percents_in(notes.drop_last());
        match notes.last() {
            MessageView::PageMessage(PageMessagesView::DownloadFirmwarePercent(value)) => front.push(
                value,
            ),
            _ => front,
        }
    }
}

/// The number of messages that hand over a downloaded file.
pub open spec fn handovers(notes: Seq<MessageView>) -> nat
    decreases notes.len(),
{
    if notes.len() == 0 {
        0
    } else {
        handovers(notes.drop_last()) + match notes.last() {
            MessageView::StepsMessage(StepMessagesView::SelectFile(Some(_))) => 1nat,
            _ => 0nat,
        }
    }
}

/// Whether each value is higher than all before it.
pub open spec fn strictly_rising(values: Seq<u8>) -> bool {
    forall|i: int, j: int| 0 <= i < j < values.len() ==> values[i] < values[j]
}

proof fn lemma_percents_add(left: Seq<MessageView>, right: Seq<MessageView>)
    ensures
        percents_in(left + right) == percents_in(left) + percents_in(right),
        handovers(left + right) == handovers(left) + handovers(right),
    decreases right.len(),
{
    if right.len() == 0 {
        assert(left + right =~= left);
        assert(percents_in(left) + percents_in(right) =~= percents_in(left));
    } else {
        lemma_percents_add(left, right.drop_last());
        assert((left + right).drop_last() =~= left + right.drop_last());
        assert((left + right).last() == right.last());
        assert(percents_in(left + right) =~= percents_in(left) + percents_in(right));
    }
}

/// What one step of a download announces: at most one percentage, which
/// is the one the download then remembers and is higher than the last; and
/// the file, exactly when the step completes the download.
proof fn lemma_download_step_notes(state: DownloadState, path: Seq<char>, reply: DownloadReplyView)
    requires
        sound(state),
    ensures
        ({
            let step = download_next(state, path, reply);
            let found = percents_in(step.notes);
            &&& found.len() <= 1
            &&& found.len() == 1 ==> found[0] == step.state.last_percent && found[0]
                > state.last_percent && found[0] <= 100
            &&& found.len() == 0 ==> step.state.last_percent == state.last_percent
            &&& handovers(step.notes) == if state.end == DownloadEnd::Pending && step.state.end
                == DownloadEnd::Complete {
                1nat
            } else {
                0nat
            }
            &&& state.end != DownloadEnd::Pending ==> step.state == state
            &&& percents_in(download_begin(state).notes).len() == 0
            &&& handovers(download_begin(state).notes) == 0
            &&& download_begin(state).state.last_percent == state.last_percent
            &&& download_begin(state).state.end == state.end
        }),
{
    let step = download_next(state, path, reply);
    lemma_download_keeps_sound(state, path, reply);
    lemma_percents_single(MessageView::NextPressed);
    if state.awaiting == Some(DownloadCommand::Store) && reply == DownloadReplyView::Done {
        lemma_percent_after_rises(state.stored, state.length);
        let percent = step.state.last_percent;
        let progress = download_notes(state.last_percent, percent);
        let handover = finished_notes(path);
        lemma_percents_single(
            MessageView::PageMessage(PageMessagesView::DownloadFirmwarePercent(percent)),
        );
        lemma_percents_single(handover[0]);
        assert(handover =~= seq![handover[0]]);
        if step.state.end == DownloadEnd::Complete {
            lemma_percents_add(progress, handover);
            assert(percents_in(progress) + percents_in(handover) =~= percents_in(progress));
        }
    }
}

/// The percentages and handovers among no messages, and in one message.
proof fn lemma_percents_single(note: MessageView)
    ensures
        percents_in(Seq::<MessageView>::empty()) == Seq::<u8>::empty(),
        handovers(Seq::<MessageView>::empty()) == 0,
        percents_in(seq![note]) == match note {
            MessageView::PageMessage(PageMessagesView::DownloadFirmwarePercent(value)) => seq![
                value,
            ],
            _ => Seq::<u8>::empty(),
        },
        handovers(seq![note]) == match note {
            MessageView::StepsMessage(StepMessagesView::SelectFile(Some(_))) => 1nat,
            _ => 0nat,
        },
{
    let one = seq![note];
    assert(one.drop_last() =~= Seq::<MessageView>::empty());
    assert(one.last() == note);
    assert(percents_in(one.drop_last()) =~= Seq::<u8>::empty());
    match note {
        MessageView::PageMessage(PageMessagesView::DownloadFirmwarePercent(value)) => {
            assert(percents_in(one) =~= seq![value]);
        },
        _ => {
            assert(percents_in(one) =~= Seq::<u8>::empty());
        },
    }
}

/// Over a whole download each percentage that is announced is higher than
/// every one before it, and none is above one hundred; the file is handed
/// over once if the download completes, and not at all otherwise.
pub proof fn lemma_download_percents_rise(path: Seq<char>, replies: Seq<DownloadReplyView>)
    ensures
        sound(download_outcomes(path, replies).last().state),
        strictly_rising(percents_in(download_messages(download_outcomes(path, replies)))),
        forall|i: int|
            0 <= i < percents_in(download_messages(download_outcomes(path, replies))).len()
                ==> 0 < #[trigger] percents_in(
                download_messages(download_outcomes(path, replies)),
            )[i] <= download_outcomes(path, replies).last().state.last_percent <= 100,
        handovers(download_messages(download_outcomes(path, replies))) == if download_outcomes(
            path,
            replies,
        ).last().state.end == DownloadEnd::Complete {
            1nat
        } else {
            0nat
        },
    decreases replies.len(),
{
    let steps = download_outcomes(path, replies);
    if replies.len() == 0 {
        lemma_download_step_notes(fresh(), path, DownloadReplyView::Done);
        lemma_download_keeps_sound(fresh(), path, DownloadReplyView::Done);
        assert(download_messages(steps.drop_last()) =~= Seq::<MessageView>::empty());
        assert(download_messages(steps) =~= steps.last().notes);
    } else {
        let earlier = download_outcomes(path, replies.drop_last());
        lemma_download_percents_rise(path, replies.drop_last());
        let before = earlier.last().state;
        let step = download_next(before, path, replies.last());
        lemma_download_keeps_sound(before, path, replies.last());
        lemma_download_step_notes(before, path, replies.last());
        assert(steps.drop_last() =~= earlier);
        lemma_percents_add(download_messages(earlier), step.notes);
    }
}

} // verus!
