//! The update itself: five stages that carry an image onto a device, and
//! the reboot that ends every session.
//!
//! A session does not talk to the device. It hands out one command at a
//! time, and is told what the device answered; from that it decides what to
//! tell the user and which command comes next.
//!
//! ```text
//! Idle -> EraseStorage -> Upload -> Validate -> HardwareVerify -> Finalize -> Rebooted
//! ```
//!
//! A failure in any stage leads straight to `Rebooted`: the device is told
//! to reboot, which takes it back to the firmware it had.

use crate::firmware::FirmwareImage;
use crate::messages::{page_views, push_note, PageMessages, PageMessagesView};
use crate::progress::{
    announced, erase_percentage, lemma_percent_of_bounds, percent_of, percentage, ERASE_COMPLETE,
};
use vstd::prelude::*;
use vstd::string::*;

verus! {

/// The largest number of image bytes that one packet carries.
pub const PACKET_LENGTH: u32 = 1012;

/// How long to wait before a device is asked again, in milliseconds.
pub const POLL_DELAY_MS: u64 = 100;

/// Where a session stands.
#[derive(Clone, Copy, Debug, PartialEq, Eq, Structural)]
pub enum Stage {
    Idle,
    EraseStorage,
    Upload,
    Validate,
    HardwareVerify,
    Finalize,
    Rebooted,
}

/// One request to the device.
#[derive(Clone, Copy, Debug, PartialEq, Eq, Structural)]
pub enum DeviceCommand {
    /// Start erasing the storage that will take the image.
    BeginErase,
    /// Ask how far erasing has come.
    PollErase,
    /// Send the `length` bytes of the image that start at `offset`.
    SendPacket { offset: u64, length: u32 },
    /// Have the device check the next part of what it received.
    ValidatePacket { processed: u32, hash: u32, remaining: u32 },
    /// Start the device's own verification.
    BeginVerify,
    /// Ask how far verification has come.
    PollVerify,
    /// Start writing the image into place.
    BeginFinalise,
    /// Ask how far writing has come.
    PollFinalise,
    /// Restart the device.
    Reboot,
}

/// What went wrong in a session.
#[derive(Clone, Copy, Debug, PartialEq, Eq, Structural)]
pub enum ProtocolError {
    EraseBegin,
    ErasePoll,
    PacketSend,
    PacketValidate,
    /// The device claims to have checked more bytes than the image has.
    LengthMismatch,
    VerifyBegin,
    VerifyPoll,
    FinaliseBegin,
    FinalisePoll,
    /// The answer is not one that the awaited command can have.
    UnexpectedReply,
}

/// How a session ended, if it has.
#[derive(Clone, Copy, Debug, PartialEq, Eq, Structural)]
pub enum Terminal {
    Pending,
    Success,
    Error(ProtocolError),
}

/// What the device answered to a command.
#[derive(Clone, Debug, PartialEq, Eq)]
pub enum DeviceReply {
    /// The command was carried out and has nothing to report.
    Done,
    /// Erase progress, from 0 to 255; 255 means finished.
    EraseProgress(u8),
    /// The running hash, and the number of bytes that were checked.
    Validated { hash: u32, count: u32 },
    /// Whether the work is finished, and how much of it is done.
    Status { complete: bool, total: u32, done: u32 },
    /// The command failed, with the device's error in words.
    Failed(String),
}

/// What a `DeviceReply` holds, as plain values.
pub ghost enum ReplyView {
    Done,
    EraseProgress(u8),
    Validated { hash: u32, count: u32 },
    Status { complete: bool, total: u32, done: u32 },
    Failed(Seq<char>),
}

impl View for DeviceReply {
    type V = ReplyView;

    open spec fn view(&self) -> ReplyView {
        match *self {
            DeviceReply::Done => ReplyView::Done,
            DeviceReply::EraseProgress(progress) => ReplyView::EraseProgress(progress),
            DeviceReply::Validated { hash, count } => ReplyView::Validated { hash, count },
            DeviceReply::Status { complete, total, done } => ReplyView::Status {
                complete,
                total,
                done,
            },
            DeviceReply::Failed(text) => ReplyView::Failed(text@),
        }
    }
}

/// Everything a session remembers.
#[derive(Clone, Copy, Debug, PartialEq, Eq)]
pub struct SessionState {
    /// The length of the image in bytes.
    pub total: u32,
    pub stage: Stage,
    /// The command that was handed out and not answered yet.
    pub awaiting: Option<DeviceCommand>,
    /// The percentage that was announced last in the current stage.
    pub last_percent: u8,
    /// The number of image bytes that were sent.
    pub sent: u32,
    /// The number of bytes that the device has checked.
    pub processed: u32,
    /// The hash that the device returned last.
    pub hash: u32,
    pub terminal: Terminal,
}

/// What one step of a session comes to: the state after it, what to tell
/// the user, the command to carry out next, and how long to wait first.
pub ghost struct Outcome {
    pub state: SessionState,
    pub notes: Seq<PageMessagesView>,
    pub command: Option<DeviceCommand>,
    pub delay_ms: u64,
}

/// What a session hands back from a step.
pub struct Step {
    /// What to tell the user, in order.
    pub notes: Vec<PageMessages>,
    /// The command to carry out next; none once the session has ended.
    pub command: Option<DeviceCommand>,
    /// How long to wait before carrying out the command, in milliseconds.
    pub delay_ms: u64,
}

/// The name under which a stage is announced.
pub open spec fn stage_name(stage: Stage) -> Seq<char> {
    match stage {
        Stage::Idle => "Preparing..."@,
        Stage::EraseStorage => "Preparing Update Partition"@,
        Stage::Upload => "Uploading Firmware to Device"@,
        Stage::Validate => "Verifying File Upload"@,
        Stage::HardwareVerify => "Device Firmware Verification"@,
        Stage::Finalize => "Writing Firmware.."@,
        Stage::Rebooted => "Finished"@,
    }
}

/// The words that describe an error, before the device's own.
pub open spec fn error_prefix(error: ProtocolError) -> Seq<char> {
    match error {
        ProtocolError::EraseBegin => "Unable to start NVR Clear: "@,
        ProtocolError::ErasePoll => "Error Polling NVR Clear: "@,
        ProtocolError::PacketSend => "Error uploading Firmware Chunk: "@,
        ProtocolError::PacketValidate => "Error Validating Firmware Packet: "@,
        ProtocolError::LengthMismatch => "Error Validating Firmware, Length Mismatch"@,
        ProtocolError::VerifyBegin => "Unable to Start Verification: "@,
        ProtocolError::VerifyPoll => "Device Validation Failed: "@,
        ProtocolError::FinaliseBegin => "Unable to Start Write: "@,
        ProtocolError::FinalisePoll => "Progress Check Failed: "@,
        ProtocolError::UnexpectedReply => "Unexpected Reply from Device"@,
    }
}

/// The error that a failure of `command` stands for.
pub open spec fn failure_of(command: DeviceCommand) -> ProtocolError {
    match command {
        DeviceCommand::BeginErase => ProtocolError::EraseBegin,
        DeviceCommand::PollErase => ProtocolError::ErasePoll,
        DeviceCommand::SendPacket { .. } => ProtocolError::PacketSend,
        DeviceCommand::ValidatePacket { .. } => ProtocolError::PacketValidate,
        DeviceCommand::BeginVerify => ProtocolError::VerifyBegin,
        DeviceCommand::PollVerify => ProtocolError::VerifyPoll,
        DeviceCommand::BeginFinalise => ProtocolError::FinaliseBegin,
        DeviceCommand::PollFinalise => ProtocolError::FinalisePoll,
        DeviceCommand::Reboot => ProtocolError::UnexpectedReply,
    }
}

/// The notes that open a stage: its name, and progress back at zero.
pub open spec fn opening_notes(stage: Stage) -> Seq<PageMessagesView> {
    seq![
        PageMessagesView::UpdateFirmwareStage(stage_name(stage)),
        PageMessagesView::UpdateFirmwarePercent(0),
    ]
}

/// The note for a progress report of `percent` after `last`: none where the
/// value is the one that was announced last.
pub open spec fn percent_notes(last: u8, percent: u8) -> Seq<PageMessagesView> {
    match announced(last, percent) {
        Some(value) => seq![PageMessagesView::UpdateFirmwarePercent(value)],
        None => Seq::empty(),
    }
}

/// The notes that end a session that failed with `text`.
pub open spec fn failure_notes(text: Seq<char>) -> Seq<PageMessagesView> {
    seq![
        PageMessagesView::UpdateFirmwareMessage("Error: "@ + text),
        PageMessagesView::UpdateFirmwareIsError(true),
        PageMessagesView::UpdateFirmwareComplete(true),
    ]
}

/// The notes that end a session that went through.
pub open spec fn success_notes() -> Seq<PageMessagesView> {
    seq![
        PageMessagesView::UpdateFirmwareMessage("Your GoXLR Has updated Successfully!"@),
        PageMessagesView::UpdateFirmwarePercent(100),
        PageMessagesView::UpdateFirmwareComplete(true),
    ]
}

/// The notes for an update that could not even begin: no stage was
/// entered and no command was sent.
pub open spec fn setup_error_notes(text: Seq<char>) -> Seq<PageMessagesView> {
    opening_notes(Stage::Idle) + failure_notes(text)
}

/// The length of the packet that starts at `sent`: a full packet, or what
/// is left of the image.
pub open spec fn packet_length(sent: u32, total: u32) -> u32 {
    if total - sent >= PACKET_LENGTH {
        PACKET_LENGTH
    } else {
        (total - sent) as u32
    }
}

/// The packet to send once `sent` bytes are out.
pub open spec fn packet_at(sent: u32, total: u32) -> DeviceCommand {
    DeviceCommand::SendPacket { offset: sent as u64, length: packet_length(sent, total) }
}

/// The first command of a stage.
pub open spec fn first_command(stage: Stage, total: u32) -> Option<DeviceCommand> {
    match stage {
        Stage::Idle => None,
        Stage::EraseStorage => Some(DeviceCommand::BeginErase),
        Stage::Upload => Some(packet_at(0, total)),
        Stage::Validate => Some(
            DeviceCommand::ValidatePacket { processed: 0, hash: 0, remaining: total },
        ),
        Stage::HardwareVerify => Some(DeviceCommand::BeginVerify),
        Stage::Finalize => Some(DeviceCommand::BeginFinalise),
        Stage::Rebooted => None,
    }
}

/// The state of a session that has not begun, for an image of `total`
/// bytes.
pub open spec fn initial(total: u32) -> SessionState {
    SessionState {
        total,
        stage: Stage::Idle,
        awaiting: None,
        last_percent: 0,
        sent: 0,
        processed: 0,
        hash: 0,
        terminal: Terminal::Pending,
    }
}

/// Whether a state is one that a session can be in.
pub open spec fn valid(state: SessionState) -> bool {
    &&& state.total > 0
    &&& state.last_percent <= 100
    &&& (state.terminal != Terminal::Pending) == (state.stage == Stage::Rebooted)
    &&& match state.stage {
        Stage::Idle => state == initial(state.total),
        Stage::EraseStorage => {
            &&& state.awaiting == Some(DeviceCommand::BeginErase) || state.awaiting == Some(
                DeviceCommand::PollErase,
            )
            &&& state.sent == 0
            &&& state.processed == 0
            &&& state.hash == 0
        },
        Stage::Upload => {
            &&& state.processed == 0
            &&& state.hash == 0
            &&& state.sent < state.total
            &&& state.sent as nat % PACKET_LENGTH as nat == 0
            &&& state.awaiting == Some(packet_at(state.sent, state.total))
            &&& state.last_percent as nat == percent_of(state.sent as nat, state.total as nat)
        },
        Stage::Validate => {
            &&& state.processed < state.total
            &&& state.awaiting == Some(
                DeviceCommand::ValidatePacket {
                    processed: state.processed,
                    hash: state.hash,
                    remaining: (state.total - state.processed) as u32,
                },
            )
            &&& state.last_percent as nat == percent_of(
                state.processed as nat,
                state.total as nat,
            )
        },
        Stage::HardwareVerify => state.awaiting == Some(DeviceCommand::BeginVerify)
            || state.awaiting == Some(DeviceCommand::PollVerify),
        Stage::Finalize => state.awaiting == Some(DeviceCommand::BeginFinalise) || state.awaiting
            == Some(DeviceCommand::PollFinalise),
        Stage::Rebooted => state.awaiting.is_none(),
    }
}

/// The session goes on in its stage: `percent` is reported, and `command`
/// is next, after a wait of `delay_ms`.
pub open spec fn stay(
    state: SessionState,
    percent: u8,
    command: DeviceCommand,
    delay_ms: u64,
) -> Outcome {
    Outcome {
        state: SessionState { awaiting: Some(command), last_percent: percent, ..state },
        notes: percent_notes(state.last_percent, percent),
        command: Some(command),
        delay_ms,
    }
}

/// The session reports `percent` for the stage it is in and enters
/// `stage`, with progress back at zero.
pub open spec fn enter(state: SessionState, percent: u8, stage: Stage) -> Outcome {
    Outcome {
        state: SessionState {
            stage,
            awaiting: first_command(stage, state.total),
            last_percent: 0,
            ..state
        },
        notes: percent_notes(state.last_percent, percent) + opening_notes(stage),
        command: first_command(stage, state.total),
        delay_ms: 0,
    }
}

/// The session fails: the user is told, and the device is rebooted.
pub open spec fn fail(state: SessionState, error: ProtocolError, detail: Seq<char>) -> Outcome {
    Outcome {
        state: SessionState {
            stage: Stage::Rebooted,
            awaiting: None,
            terminal: Terminal::Error(error),
            ..state
        },
        notes: failure_notes(error_prefix(error) + detail),
        command: Some(DeviceCommand::Reboot),
        delay_ms: 0,
    }
}

/// The session has gone through: `percent` is reported for the last stage,
/// the user is told, and the device is rebooted into the new firmware.
pub open spec fn succeed(state: SessionState, percent: u8) -> Outcome {
    Outcome {
        state: SessionState {
            stage: Stage::Rebooted,
            awaiting: None,
            last_percent: percent,
            terminal: Terminal::Success,
            ..state
        },
        notes: percent_notes(state.last_percent, percent) + success_notes(),
        command: Some(DeviceCommand::Reboot),
        delay_ms: 0,
    }
}

/// Nothing happens: the session has not begun, or has ended.
pub open spec fn idle(state: SessionState) -> Outcome {
    Outcome { state, notes: Seq::empty(), command: None, delay_ms: 0 }
}

/// The first step of a session: the erase stage opens. On a session that
/// has begun already this does nothing.
pub open spec fn begin(state: SessionState) -> Outcome {
    if state.stage == Stage::Idle {
        enter(state, state.last_percent, Stage::EraseStorage)
    } else {
        idle(state)
    }
}

/// The percentage of `done` out of `total`, as a byte; never above one
/// hundred.
pub open spec fn percent_byte(done: nat, total: nat) -> u8 {
    percent_of(done, total) as u8
}

/// The step that a session takes when the device has answered the command
/// it was waiting for.
pub open spec fn next(state: SessionState, reply: ReplyView) -> Outcome {
    match state.awaiting {
        None => idle(state),
        Some(command) => match reply {
            ReplyView::Failed(detail) => fail(state, failure_of(command), detail),
            ReplyView::Done => match command {
                DeviceCommand::BeginErase => stay(
                    state,
                    state.last_percent,
                    DeviceCommand::PollErase,
                    POLL_DELAY_MS,
                ),
                DeviceCommand::SendPacket { offset, length } => {
                    let sent = (state.sent + length) as u32;
                    let percent = percent_byte(sent as nat, state.total as nat);
                    if state.sent + length < state.total {
                        stay(
                            SessionState { sent, ..state },
                            percent,
                            packet_at(sent, state.total),
                            0,
                        )
                    } else {
                        enter(SessionState { sent, ..state }, percent, Stage::Validate)
                    }
                },
                DeviceCommand::BeginVerify => stay(
                    state,
                    state.last_percent,
                    DeviceCommand::PollVerify,
                    POLL_DELAY_MS,
                ),
                DeviceCommand::BeginFinalise => stay(
                    state,
                    state.last_percent,
                    DeviceCommand::PollFinalise,
                    POLL_DELAY_MS,
                ),
                _ => fail(state, ProtocolError::UnexpectedReply, Seq::empty()),
            },
            ReplyView::EraseProgress(progress) => match command {
                DeviceCommand::PollErase => {
                    let percent = percent_byte(progress as nat, 255);
                    if progress == ERASE_COMPLETE {
                        enter(state, percent, Stage::Upload)
                    } else {
                        stay(state, percent, DeviceCommand::PollErase, POLL_DELAY_MS)
                    }
                },
                _ => fail(state, ProtocolError::UnexpectedReply, Seq::empty()),
            },
            ReplyView::Validated { hash, count } => match command {
                DeviceCommand::ValidatePacket { .. } => {
                    if state.processed + count > state.total {
                        fail(state, ProtocolError::LengthMismatch, Seq::empty())
                    } else {
                        let processed = (state.processed + count) as u32;
                        let percent = percent_byte(processed as nat, state.total as nat);
                        if processed < state.total {
                            let command = DeviceCommand::ValidatePacket {
                                processed,
                                hash,
                                remaining: (state.total - processed) as u32,
                            };
                            stay(
                                SessionState { processed, hash, ..state },
                                percent,
                                command,
                                POLL_DELAY_MS,
                            )
                        } else {
                            enter(
                                SessionState { processed, hash, ..state },
                                percent,
                                Stage::HardwareVerify,
                            )
                        }
                    }
                },
                _ => fail(state, ProtocolError::UnexpectedReply, Seq::empty()),
            },
            ReplyView::Status { complete, total, done } => {
                let percent = percent_byte(done as nat, total as nat);
                match command {
                    DeviceCommand::PollVerify => if complete {
                        enter(state, percent, Stage::Finalize)
                    } else {
                        stay(state, percent, DeviceCommand::PollVerify, POLL_DELAY_MS)
                    },
                    DeviceCommand::PollFinalise => if complete {
                        succeed(state, percent)
                    } else {
                        stay(state, percent, DeviceCommand::PollFinalise, POLL_DELAY_MS)
                    },
                    _ => fail(state, ProtocolError::UnexpectedReply, Seq::empty()),
                }
            },
        },
    }
}

/// Whether what a step handed back is what `outcome` says.
pub open spec fn reports(step: Step, outcome: Outcome) -> bool {
    &&& page_views(step.notes@) == outcome.notes
    &&& step.command == outcome.command
    &&& step.delay_ms == outcome.delay_ms
}

fn stage_text(stage: Stage) -> (text: String)
    ensures
        text@ == stage_name(stage),
{
    match stage {
        Stage::Idle => "Preparing...".to_owned(),
        Stage::EraseStorage => "Preparing Update Partition".to_owned(),
        Stage::Upload => "Uploading Firmware to Device".to_owned(),
        Stage::Validate => "Verifying File Upload".to_owned(),
        Stage::HardwareVerify => "Device Firmware Verification".to_owned(),
        Stage::Finalize => "Writing Firmware..".to_owned(),
        Stage::Rebooted => "Finished".to_owned(),
    }
}

fn prefix_text(error: ProtocolError) -> (text: &'static str)
    ensures
        text@ == error_prefix(error),
{
    match error {
        ProtocolError::EraseBegin => "Unable to start NVR Clear: ",
        ProtocolError::ErasePoll => "Error Polling NVR Clear: ",
        ProtocolError::PacketSend => "Error uploading Firmware Chunk: ",
        ProtocolError::PacketValidate => "Error Validating Firmware Packet: ",
        ProtocolError::LengthMismatch => "Error Validating Firmware, Length Mismatch",
        ProtocolError::VerifyBegin => "Unable to Start Verification: ",
        ProtocolError::VerifyPoll => "Device Validation Failed: ",
        ProtocolError::FinaliseBegin => "Unable to Start Write: ",
        ProtocolError::FinalisePoll => "Progress Check Failed: ",
        ProtocolError::UnexpectedReply => "Unexpected Reply from Device",
    }
}

fn failure_for(command: DeviceCommand) -> (error: ProtocolError)
    ensures
        error == failure_of(command),
{
    match command {
        DeviceCommand::BeginErase => ProtocolError::EraseBegin,
        DeviceCommand::PollErase => ProtocolError::ErasePoll,
        DeviceCommand::SendPacket { .. } => ProtocolError::PacketSend,
        DeviceCommand::ValidatePacket { .. } => ProtocolError::PacketValidate,
        DeviceCommand::BeginVerify => ProtocolError::VerifyBegin,
        DeviceCommand::PollVerify => ProtocolError::VerifyPoll,
        DeviceCommand::BeginFinalise => ProtocolError::FinaliseBegin,
        DeviceCommand::PollFinalise => ProtocolError::FinalisePoll,
        DeviceCommand::Reboot => ProtocolError::UnexpectedReply,
    }
}

fn note_percent(notes: &mut Vec<PageMessages>, last: u8, percent: u8)
    ensures
        page_views(final(notes)@) == page_views(old(notes)@) + percent_notes(last, percent),
{
    let ghost before = page_views(notes@);
    if percent != last {
        push_note(notes, PageMessages::UpdateFirmwarePercent(percent));
        assert(page_views(notes@) =~= before + percent_notes(last, percent));
    } else {
        assert(page_views(notes@) =~= before + percent_notes(last, percent));
    }
}

fn note_opening(notes: &mut Vec<PageMessages>, stage: Stage)
    ensures
        page_views(final(notes)@) == page_views(old(notes)@) + opening_notes(stage),
{
    let ghost before = page_views(notes@);
    push_note(notes, PageMessages::UpdateFirmwareStage(stage_text(stage)));
    push_note(notes, PageMessages::UpdateFirmwarePercent(0));
    assert(page_views(notes@) =~= before + opening_notes(stage));
}

fn note_failure(notes: &mut Vec<PageMessages>, text: &str)
    ensures
        page_views(final(notes)@) == page_views(old(notes)@) + failure_notes(text@),
{
    let ghost before = page_views(notes@);
    let mut message = String::from_str("Error: ");
    message.append(text);
    push_note(notes, PageMessages::UpdateFirmwareMessage(message));
    push_note(notes, PageMessages::UpdateFirmwareIsError(true));
    push_note(notes, PageMessages::UpdateFirmwareComplete(true));
    assert(page_views(notes@) =~= before + failure_notes(text@));
}

fn note_success(notes: &mut Vec<PageMessages>)
    ensures
        page_views(final(notes)@) == page_views(old(notes)@) + success_notes(),
{
    let ghost before = page_views(notes@);
    push_note(
        notes,
        PageMessages::UpdateFirmwareMessage("Your GoXLR Has updated Successfully!".to_owned()),
    );
    push_note(notes, PageMessages::UpdateFirmwarePercent(100));
    push_note(notes, PageMessages::UpdateFirmwareComplete(true));
    assert(page_views(notes@) =~= before + success_notes());
}

fn empty_notes() -> (notes: Vec<PageMessages>)
    ensures
        page_views(notes@) == Seq::<PageMessagesView>::empty(),
{
    let notes: Vec<PageMessages> = Vec::new();
    assert(page_views(notes@) =~= Seq::<PageMessagesView>::empty());
    notes
}

/// What to tell the user when an update could not begin: `text` says why.
/// No stage was entered, and there is nothing to reboot.
pub fn setup_error(text: &str) -> (notes: Vec<PageMessages>)
    ensures
        page_views(notes@) == setup_error_notes(text@),
{
    let mut notes = empty_notes();
    note_opening(&mut notes, Stage::Idle);
    note_failure(&mut notes, text);
    assert(page_views(notes@) =~= setup_error_notes(text@));
    notes
}

/// Why an update could not begin.
#[derive(Clone, Debug, PartialEq, Eq)]
pub enum SetupError {
    /// There is no open connection to the device that was chosen.
    NoDevice,
    /// The firmware file could not be read.
    NoFirmware,
    /// The device refused to enter update mode, with its error in words.
    UpdateMode(String),
}

/// What a `SetupError` holds, as plain values.
pub ghost enum SetupErrorView {
    NoDevice,
    NoFirmware,
    UpdateMode(Seq<char>),
}

impl View for SetupError {
    type V = SetupErrorView;

    open spec fn view(&self) -> SetupErrorView {
        match *self {
            SetupError::NoDevice => SetupErrorView::NoDevice,
            SetupError::NoFirmware => SetupErrorView::NoFirmware,
            SetupError::UpdateMode(detail) => SetupErrorView::UpdateMode(detail@),
        }
    }
}

/// A setup error in words.
pub open spec fn setup_text(error: SetupErrorView) -> Seq<char> {
    match error {
        SetupErrorView::NoDevice => "Unable to retrieve GoXLR from Device"@,
        SetupErrorView::NoFirmware => "Unable to Load Firmware from Disk"@,
        SetupErrorView::UpdateMode(detail) => "Failed to put device in Update Mode: "@ + detail,
    }
}

/// What to tell the user when an update could not begin for `error`.
pub fn setup_failure(error: &SetupError) -> (notes: Vec<PageMessages>)
    ensures
        page_views(notes@) == setup_error_notes(setup_text(error@)),
{
    match error {
        SetupError::NoDevice => setup_error("Unable to retrieve GoXLR from Device"),
        SetupError::NoFirmware => setup_error("Unable to Load Firmware from Disk"),
        SetupError::UpdateMode(detail) => {
            let mut text = String::from_str("Failed to put device in Update Mode: ");
            text.append(detail.as_str());
            setup_error(text.as_str())
        },
    }
}

fn packet_for(sent: u32, total: u32) -> (command: DeviceCommand)
    requires
        sent <= total,
    ensures
        command == packet_at(sent, total),
{
    let length = if total - sent >= PACKET_LENGTH {
        PACKET_LENGTH
    } else {
        total - sent
    };
    DeviceCommand::SendPacket { offset: sent as u64, length }
}

fn opening_command(stage: Stage, total: u32) -> (command: Option<DeviceCommand>)
    ensures
        command == first_command(stage, total),
{
    match stage {
        Stage::Idle => None,
        Stage::EraseStorage => Some(DeviceCommand::BeginErase),
        Stage::Upload => Some(packet_for(0, total)),
        Stage::Validate => Some(
            DeviceCommand::ValidatePacket { processed: 0, hash: 0, remaining: total },
        ),
        Stage::HardwareVerify => Some(DeviceCommand::BeginVerify),
        Stage::Finalize => Some(DeviceCommand::BeginFinalise),
        Stage::Rebooted => None,
    }
}

fn do_stay(state: SessionState, percent: u8, command: DeviceCommand, delay_ms: u64) -> (out: (
    SessionState,
    Step,
))
    ensures
        out.0 == stay(state, percent, command, delay_ms).state,
        reports(out.1, stay(state, percent, command, delay_ms)),
{
    let mut notes = empty_notes();
    note_percent(&mut notes, state.last_percent, percent);
    assert(page_views(notes@) =~= percent_notes(state.last_percent, percent));
    let after = SessionState {
        total: state.total,
        stage: state.stage,
        awaiting: Some(command),
        last_percent: percent,
        sent: state.sent,
        processed: state.processed,
        hash: state.hash,
        terminal: state.terminal,
    };
    (after, Step { notes, command: Some(command), delay_ms })
}

fn do_enter(state: SessionState, percent: u8, stage: Stage) -> (out: (SessionState, Step))
    ensures
        out.0 == enter(state, percent, stage).state,
        reports(out.1, enter(state, percent, stage)),
{
    let mut notes = empty_notes();
    note_percent(&mut notes, state.last_percent, percent);
    note_opening(&mut notes, stage);
    assert(page_views(notes@) =~= percent_notes(state.last_percent, percent) + opening_notes(
        stage,
    ));
    let command = opening_command(stage, state.total);
    let after = SessionState {
        total: state.total,
        stage,
        awaiting: command,
        last_percent: 0,
        sent: state.sent,
        processed: state.processed,
        hash: state.hash,
        terminal: state.terminal,
    };
    (after, Step { notes, command, delay_ms: 0 })
}

fn do_fail(state: SessionState, error: ProtocolError, detail: &str) -> (out: (SessionState, Step))
    ensures
        out.0 == fail(state, error, detail@).state,
        reports(out.1, fail(state, error, detail@)),
{
    let mut text = String::from_str(prefix_text(error));
    text.append(detail);
    let mut notes = empty_notes();
    note_failure(&mut notes, text.as_str());
    assert(page_views(notes@) =~= failure_notes(error_prefix(error) + detail@));
    let after = SessionState {
        total: state.total,
        stage: Stage::Rebooted,
        awaiting: None,
        last_percent: state.last_percent,
        sent: state.sent,
        processed: state.processed,
        hash: state.hash,
        terminal: Terminal::Error(error),
    };
    (after, Step { notes, command: Some(DeviceCommand::Reboot), delay_ms: 0 })
}

fn do_succeed(state: SessionState, percent: u8) -> (out: (SessionState, Step))
    ensures
        out.0 == succeed(state, percent).state,
        reports(out.1, succeed(state, percent)),
{
    let mut notes = empty_notes();
    note_percent(&mut notes, state.last_percent, percent);
    note_success(&mut notes);
    assert(page_views(notes@) =~= percent_notes(state.last_percent, percent) + success_notes());
    let after = SessionState {
        total: state.total,
        stage: Stage::Rebooted,
        awaiting: None,
        last_percent: percent,
        sent: state.sent,
        processed: state.processed,
        hash: state.hash,
        terminal: Terminal::Success,
    };
    (after, Step { notes, command: Some(DeviceCommand::Reboot), delay_ms: 0 })
}

fn do_idle(state: SessionState) -> (out: (SessionState, Step))
    ensures
        out.0 == idle(state).state,
        reports(out.1, idle(state)),
{
    (state, Step { notes: empty_notes(), command: None, delay_ms: 0 })
}

fn do_unexpected(state: SessionState) -> (out: (SessionState, Step))
    ensures
        out.0 == fail(state, ProtocolError::UnexpectedReply, Seq::empty()).state,
        reports(out.1, fail(state, ProtocolError::UnexpectedReply, Seq::empty())),
{
    proof {
        reveal_strlit("");
    }
    assert(""@ =~= Seq::<char>::empty());
    do_fail(state, ProtocolError::UnexpectedReply, "")
}

fn with_sent(state: SessionState, sent: u32) -> (after: SessionState)
    ensures
        after == (SessionState { sent, ..state }),
{
    SessionState {
        total: state.total,
        stage: state.stage,
        awaiting: state.awaiting,
        last_percent: state.last_percent,
        sent,
        processed: state.processed,
        hash: state.hash,
        terminal: state.terminal,
    }
}

fn with_processed(state: SessionState, processed: u32, hash: u32) -> (after: SessionState)
    ensures
        after == (SessionState { processed, hash, ..state }),
{
    SessionState {
        total: state.total,
        stage: state.stage,
        awaiting: state.awaiting,
        last_percent: state.last_percent,
        sent: state.sent,
        processed,
        hash,
        terminal: state.terminal,
    }
}

fn step_begin(state: SessionState) -> (out: (SessionState, Step))
    ensures
        out.0 == begin(state).state,
        reports(out.1, begin(state)),
{
    match state.stage {
        Stage::Idle => do_enter(state, state.last_percent, Stage::EraseStorage),
        _ => do_idle(state),
    }
}

fn step_done(state: SessionState, command: DeviceCommand) -> (out: (SessionState, Step))
    requires
        valid(state),
        state.awaiting == Some(command),
    ensures
        out.0 == next(state, ReplyView::Done).state,
        reports(out.1, next(state, ReplyView::Done)),
{
    match command {
        DeviceCommand::BeginErase => do_stay(
            state,
            state.last_percent,
            DeviceCommand::PollErase,
            POLL_DELAY_MS,
        ),
        DeviceCommand::SendPacket { offset, length } => {
            assert(state.stage == Stage::Upload);
            let sent = state.sent + length;
            let percent = percentage(sent as u64, state.total as u64);
            if sent < state.total {
                do_stay(with_sent(state, sent), percent, packet_for(sent, state.total), 0)
            } else {
                do_enter(with_sent(state, sent), percent, Stage::Validate)
            }
        },
        DeviceCommand::BeginVerify => do_stay(
            state,
            state.last_percent,
            DeviceCommand::PollVerify,
            POLL_DELAY_MS,
        ),
        DeviceCommand::BeginFinalise => do_stay(
            state,
            state.last_percent,
            DeviceCommand::PollFinalise,
            POLL_DELAY_MS,
        ),
        _ => do_unexpected(state),
    }
}

fn step_validated(state: SessionState, hash: u32, count: u32) -> (out: (SessionState, Step))
    requires
        valid(state),
        state.awaiting is Some,
        state.awaiting->0 is ValidatePacket,
    ensures
        out.0 == next(state, ReplyView::Validated { hash, count }).state,
        reports(out.1, next(state, ReplyView::Validated { hash, count })),
{
    assert(state.stage == Stage::Validate);
    if count > state.total - state.processed {
        proof {
            reveal_strlit("");
        }
        assert(""@ =~= Seq::<char>::empty());
        do_fail(state, ProtocolError::LengthMismatch, "")
    } else {
        let processed = state.processed + count;
        let percent = percentage(processed as u64, state.total as u64);
        if processed < state.total {
            let command = DeviceCommand::ValidatePacket {
                processed,
                hash,
                remaining: state.total - processed,
            };
            do_stay(with_processed(state, processed, hash), percent, command, POLL_DELAY_MS)
        } else {
            do_enter(with_processed(state, processed, hash), percent, Stage::HardwareVerify)
        }
    }
}

/// One step of a session: from the state and the device's answer to the
/// state that follows, with what to tell the user and what to do next.
fn step(state: SessionState, reply: DeviceReply) -> (out: (SessionState, Step))
    requires
        valid(state),
    ensures
        out.0 == next(state, reply@).state,
        reports(out.1, next(state, reply@)),
{
    let command = match state.awaiting {
        Some(command) => command,
        None => {
            return do_idle(state);
        },
    };
    match reply {
        DeviceReply::Failed(detail) => do_fail(state, failure_for(command), detail.as_str()),
        DeviceReply::Done => step_done(state, command),
        DeviceReply::EraseProgress(progress) => match command {
            DeviceCommand::PollErase => {
                let percent = erase_percentage(progress);
                if progress == ERASE_COMPLETE {
                    do_enter(state, percent, Stage::Upload)
                } else {
                    do_stay(state, percent, DeviceCommand::PollErase, POLL_DELAY_MS)
                }
            },
            _ => do_unexpected(state),
        },
        DeviceReply::Validated { hash, count } => match command {
            DeviceCommand::ValidatePacket { .. } => step_validated(state, hash, count),
            _ => do_unexpected(state),
        },
        DeviceReply::Status { complete, total, done } => {
            let percent = percentage(done as u64, total as u64);
            match command {
                DeviceCommand::PollVerify => if complete {
                    do_enter(state, percent, Stage::Finalize)
                } else {
                    do_stay(state, percent, DeviceCommand::PollVerify, POLL_DELAY_MS)
                },
                DeviceCommand::PollFinalise => if complete {
                    do_succeed(state, percent)
                } else {
                    do_stay(state, percent, DeviceCommand::PollFinalise, POLL_DELAY_MS)
                },
                _ => do_unexpected(state),
            }
        },
    }
}

/// A step leaves a session in a state that it can be in.
pub proof fn lemma_next_keeps_valid(state: SessionState, reply: ReplyView)
    requires
        valid(state),
    ensures
        valid(next(state, reply).state),
        valid(begin(state).state),
        next(state, reply).state.total == state.total,
        begin(state).state.total == state.total,
{
    lemma_percent_of_bounds(0, state.total as nat);
    match state.awaiting {
        None => {},
        Some(command) => {
            match reply {
                ReplyView::Done => {
                    if let DeviceCommand::SendPacket { offset, length } = command {
                        let sent = (state.sent + length) as u32;
                        lemma_percent_of_bounds(sent as nat, state.total as nat);
                        if state.sent + length < state.total {
                            assert(length == PACKET_LENGTH);
                            assert((state.sent as nat + 1012) % 1012 == 0) by (nonlinear_arith)
                                requires
                                    state.sent as nat % 1012 == 0,
                            ;
                        }
                    }
                },
                ReplyView::Validated { hash, count } => {
                    if state.processed + count <= state.total {
                        lemma_percent_of_bounds(
                            (state.processed + count) as nat,
                            state.total as nat,
                        );
                    }
                },
                ReplyView::EraseProgress(progress) => {
                    lemma_percent_of_bounds(progress as nat, 255);
                },
                ReplyView::Status { total, done, .. } => {
                    lemma_percent_of_bounds(done as nat, total as nat);
                },
                _ => {},
            }
        },
    }
}

/// One update of one device: the image, and how far its transfer has come.
pub struct UpdateSession {
    image: FirmwareImage,
    state: SessionState,
}

impl UpdateSession {
    #[verifier::type_invariant]
    spec fn sound(self) -> bool {
        valid(self.state) && self.state.total as nat == self.image.contents().len()
    }

    /// Where the session stands.
    pub closed spec fn state(&self) -> SessionState {
        self.state
    }

    /// The bytes of the image that the session installs.
    pub closed spec fn image(&self) -> Seq<u8> {
        self.image.contents()
    }

    /// A session that will install `image`. The device counts bytes in 32
    /// bits; an image too long for that gets no session.
    pub fn new(image: FirmwareImage) -> (session: Option<UpdateSession>)
        ensures
            session is Some == (image.contents().len() <= u32::MAX),
            session is Some ==> {
                &&& session->0.image() == image.contents()
                &&& session->0.state() == initial(image.contents().len() as u32)
            },
    {
        let length = image.len();
        if length > u32::MAX as usize {
            return None;
        }
        let state = SessionState {
            total: length as u32,
            stage: Stage::Idle,
            awaiting: None,
            last_percent: 0,
            sent: 0,
            processed: 0,
            hash: 0,
            terminal: Terminal::Pending,
        };
        Some(UpdateSession { image, state })
    }

    /// Begins the session: the erase stage opens, and its first command is
    /// handed out. On a session that has begun this does nothing.
    pub fn start(&mut self) -> (step: Step)
        ensures
            final(self).state() == begin(old(self).state()).state,
            reports(step, begin(old(self).state())),
            final(self).image() == old(self).image(),
            valid(old(self).state()),
            valid(final(self).state()),
    {
        proof {
            use_type_invariant(&*self);
            lemma_next_keeps_valid(self.state, ReplyView::Done);
        }
        let (after, step) = step_begin(self.state);
        self.state = after;
        step
    }

    /// Takes the device's answer to the command that was handed out last,
    /// and says what follows. Once the session has ended this does nothing.
    pub fn advance(&mut self, reply: DeviceReply) -> (step: Step)
        ensures
            final(self).state() == next(old(self).state(), reply@).state,
            reports(step, next(old(self).state(), reply@)),
            final(self).image() == old(self).image(),
            valid(old(self).state()),
            valid(final(self).state()),
    {
        proof {
            use_type_invariant(&*self);
            lemma_next_keeps_valid(self.state, reply@);
        }
        let (after, step) = step(self.state, reply);
        self.state = after;
        step
    }

    /// Everything the session remembers.
    pub fn current(&self) -> (state: SessionState)
        ensures
            state == self.state(),
            valid(state),
            state.total as nat == self.image().len(),
    {
        proof {
            use_type_invariant(self);
        }
        self.state
    }

    /// The stage that the session is in.
    pub fn stage(&self) -> (stage: Stage)
        ensures
            stage == self.state().stage,
    {
        self.state.stage
    }

    /// How the session ended, if it has.
    pub fn terminal(&self) -> (terminal: Terminal)
        ensures
            terminal == self.state().terminal,
            (terminal != Terminal::Pending) == (self.state().stage == Stage::Rebooted),
    {
        proof {
            use_type_invariant(self);
        }
        self.state.terminal
    }

    /// The command that the session waits to hear about.
    pub fn awaiting(&self) -> (command: Option<DeviceCommand>)
        ensures
            command == self.state().awaiting,
    {
        self.state.awaiting
    }

    /// The image bytes that go into the packet the session is waiting to
    /// hear about, when it is waiting for one.
    pub fn packet(&self) -> (bytes: Option<&[u8]>)
        ensures
            match self.state().awaiting {
                Some(DeviceCommand::SendPacket { offset, length }) => {
                    &&& offset + length <= self.image().len()
                    &&& bytes is Some
                    &&& bytes->0@ == self.image().subrange(offset as int, offset + length)
                },
                _ => bytes is None,
            },
    {
        proof {
            use_type_invariant(self);
        }
        match self.state.awaiting {
            Some(DeviceCommand::SendPacket { offset, length }) => {
                let start = offset as usize;
                let all = self.image.bytes();
                Some(vstd::slice::slice_subrange(all, start, start + length as usize))
            },
            _ => None,
        }
    }
}

} // verus!
