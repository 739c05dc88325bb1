//! Fetching a firmware image from the vendor's server, piece by piece.
//!
//! The image is asked for in ranges of a fixed size. This module plans the
//! ranges, reads the length that the server reports, and decides from each
//! answer what is asked for next; it does not itself talk to the server or
//! write the file.

use crate::device::DeviceType;
use crate::messages::{
    message_views, Message, MessageView, PageMessages, PageMessagesView, StepMessages,
    StepMessagesView,
};
use crate::progress::{
    announced, lemma_percent_of_bounds, lemma_percent_of_monotonic, percent_of, percentage,
};
use crate::text::{decimal_digits, decimal_text};
use vstd::prelude::*;
use vstd::string::*;

verus! {

/// The number of bytes asked for in one request.
pub const CHUNK_SIZE: u64 = 10240;

/// The status of an answer that holds the whole file.
pub const STATUS_OK: u16 = 200;

/// The status of an answer that holds the range that was asked for.
pub const STATUS_PARTIAL_CONTENT: u16 = 206;

/// The name of the firmware file of a model, on the server and on disk.
pub open spec fn file_name(device_type: DeviceType) -> Option<Seq<char>> {
    match device_type {
        DeviceType::Full => Some("GoXLR_Firmware.bin"@),
        DeviceType::Mini => Some("GoXLR_MINI_Firmware.bin"@),
        DeviceType::Unknown => None,
    }
}

/// The directory on the server that holds the firmware files.
pub open spec fn base_url() -> Seq<char> {
    "https://mediadl.musictribe.com/media/PLM/sftp/incoming/hybris/import/GOXLR/"@
}

/// The name of the firmware file of a model; a device of no known model
/// has none.
pub fn firmware_file_name(device_type: DeviceType) -> (name: Option<&'static str>)
    ensures
        match name {
            Some(text) => file_name(device_type) == Some(text@),
            None => file_name(device_type).is_none(),
        },
{
    match device_type {
        DeviceType::Full => Some("GoXLR_Firmware.bin"),
        DeviceType::Mini => Some("GoXLR_MINI_Firmware.bin"),
        DeviceType::Unknown => None,
    }
}

/// Where the firmware of a model is fetched from.
pub fn firmware_url(device_type: DeviceType) -> (url: Option<String>)
    ensures
        match url {
            Some(text) => file_name(device_type) is Some && text@ == base_url() + file_name(
                device_type,
            )->0,
            None => file_name(device_type).is_none(),
        },
{
    match firmware_file_name(device_type) {
        Some(name) => {
            let mut url = String::from_str(
                "https://mediadl.musictribe.com/media/PLM/sftp/incoming/hybris/import/GOXLR/",
            );
            url.append(name);
            Some(url)
        },
        None => None,
    }
}

/// The number of requests that a file of `length` bytes takes: `length`
/// divided by the chunk size, rounded up.
pub open spec fn chunks_of(length: nat) -> nat {
    (length + (CHUNK_SIZE as nat) - 1) as nat / (CHUNK_SIZE as nat)
}

/// Rounding up adds one to the quotient exactly where the division leaves a
/// remainder.
proof fn lemma_chunks_of(length: nat)
    ensures
        chunks_of(length) == if length % (CHUNK_SIZE as nat) != 0 {
            length / (CHUNK_SIZE as nat) + 1
        } else {
            length / (CHUNK_SIZE as nat)
        },
{
}

/// The first byte that request `index` asks for.
pub open spec fn range_start(index: nat) -> nat {
    index * (CHUNK_SIZE as nat)
}

/// The last position that request `index` names: the end of a full chunk,
/// or the length of the file where that comes first.
pub open spec fn range_end(index: nat, length: nat) -> nat {
    if range_start(index) + (CHUNK_SIZE as nat) - 1 <= length {
        (range_start(index) + (CHUNK_SIZE as nat) - 1) as nat
    } else {
        length
    }
}

/// The number of requests that a file of `length` bytes takes.
pub fn chunk_count(length: u64) -> (count: u64)
    ensures
        count as nat == chunks_of(length as nat),
{
    proof {
        lemma_chunks_of(length as nat);
    }
    if length % CHUNK_SIZE != 0 {
        length / CHUNK_SIZE + 1
    } else {
        length / CHUNK_SIZE
    }
}

/// The range that request `index` asks for, as its first and last
/// position; nothing where the file has no such request.
pub fn chunk_range(index: u64, length: u64) -> (range: Option<(u64, u64)>)
    ensures
        match range {
            Some((start, end)) => {
                &&& (index as nat) < chunks_of(length as nat)
                &&& start as nat == range_start(index as nat)
                &&& end as nat == range_end(index as nat, length as nat)
            },
            None => index as nat >= chunks_of(length as nat),
        },
{
    if index >= chunk_count(length) {
        return None;
    }
    proof {
        lemma_chunk_in_file(index as nat, length as nat);
    }
    let start = index * CHUNK_SIZE;
    let end = if length - start >= CHUNK_SIZE - 1 {
        start + (CHUNK_SIZE - 1)
    } else {
        length
    };
    Some((start, end))
}

/// The value of the `Range` header that asks for the positions from
/// `start` to `end`.
pub open spec fn range_text(start: nat, end: nat) -> Seq<char> {
    "bytes="@ + decimal_digits(start) + "-"@ + decimal_digits(end)
}

/// The value of the `Range` header that asks for the positions from
/// `start` to `end`.
pub fn range_header(start: u64, end: u64) -> (header: String)
    ensures
        header@ == range_text(start as nat, end as nat),
{
    let mut header = String::from_str("bytes=");
    header.append(decimal_text(start).as_str());
    header.append("-");
    header.append(decimal_text(end).as_str());
    header
}

/// Every request of a file starts inside it, names at least two positions,
/// and ends no later than the file's length.
pub proof fn lemma_chunk_in_file(index: nat, length: nat)
    requires
        index < chunks_of(length),
    ensures
        range_start(index) < length,
        range_start(index) < range_end(index, length) <= length,
        index + 1 < chunks_of(length) ==> range_end(index, length) + 1 == range_start(index + 1),
        index + 1 == chunks_of(length) ==> range_end(index, length) + 1 >= length,
{
    lemma_chunks_of(length);
    let size = (CHUNK_SIZE as nat);
    assert(length == size * (length / size) + length % size) by (nonlinear_arith)
        requires
            size == 10240,
    ;
    assert(index * size < length) by (nonlinear_arith)
        requires
            size == 10240,
            length == size * (length / size) + length % size,
            length % size != 0 ==> index <= length / size,
            length % size == 0 ==> index < length / size,
            0 <= length % size,
    ;
    assert((index + 1) * size == index * size + size) by (nonlinear_arith);
    if index + 1 < chunks_of(length) {
        assert((index + 1) * size < length) by (nonlinear_arith)
            requires
                size == 10240,
                length == size * (length / size) + length % size,
                length % size != 0 ==> index + 1 <= length / size,
                length % size == 0 ==> index + 1 < length / size,
                0 <= length % size,
        ;
    } else {
        assert((index + 1) * size >= length) by (nonlinear_arith)
            requires
                size == 10240,
                length == size * (length / size) + length % size,
                length % size != 0 ==> index + 1 == length / size + 1,
                length % size == 0 ==> index + 1 == length / size,
                length % size < size,
        ;
    }
}

/// The chunk count is the least number of chunks that together hold the
/// file.
pub proof fn lemma_chunk_count_is_ceiling(length: nat)
    ensures
        chunks_of(length) * (CHUNK_SIZE as nat) >= length,
        chunks_of(length) > 0 ==> (chunks_of(length) - 1) * (CHUNK_SIZE as nat) < length,
        (chunks_of(length) == 0) == (length == 0),
{
    lemma_chunks_of(length);
    let size = (CHUNK_SIZE as nat);
    let count = chunks_of(length);
    assert(length == size * (length / size) + length % size) by (nonlinear_arith)
        requires
            size == 10240,
    ;
    assert(count * size >= length) by (nonlinear_arith)
        requires
            size == 10240,
            length == size * (length / size) + length % size,
            length % size < size,
            length % size != 0 ==> count == length / size + 1,
            length % size == 0 ==> count == length / size,
    ;
    if count > 0 {
        assert((count - 1) * size < length) by (nonlinear_arith)
            requires
                size == 10240,
                count > 0,
                length == size * (length / size) + length % size,
                length % size < size,
                length % size != 0 ==> count == length / size + 1,
                length % size == 0 ==> count == length / size,
        ;
    }
}

/// The last request of a file whose length is a whole number of chunks
/// ends at the file's last byte. With any other length it names the
/// position just past the last byte.
pub proof fn lemma_last_range_end(length: nat)
    requires
        length > 0,
    ensures
        chunks_of(length) > 0,
        length % (CHUNK_SIZE as nat) == 0 ==> range_end((chunks_of(length) - 1) as nat, length)
            == length - 1,
        length % (CHUNK_SIZE as nat) != 0 ==> range_end((chunks_of(length) - 1) as nat, length)
            == length,
{
    lemma_chunk_count_is_ceiling(length);
    lemma_chunks_of(length);
    let size = (CHUNK_SIZE as nat);
    let last = (chunks_of(length) - 1) as nat;
    lemma_chunk_in_file(last, length);
    assert(length == size * (length / size) + length % size) by (nonlinear_arith)
        requires
            size == 10240,
    ;
    if length % size == 0 {
        assert(last * size + size == length) by (nonlinear_arith)
            requires
                size == 10240,
                length == size * (length / size),
                last == length / size - 1,
        ;
    } else {
        assert(last * size + size > length) by (nonlinear_arith)
            requires
                size == 10240,
                length == size * (length / size) + length % size,
                length % size < size,
                last == length / size,
        ;
    }
}

/// Whether a byte is an ASCII digit.
pub open spec fn is_digit(byte: u8) -> bool {
    48 <= byte <= 57
}

/// Whether every byte is an ASCII digit.
pub open spec fn all_digits(text: Seq<u8>) -> bool {
    forall|i: int| 0 <= i < text.len() ==> is_digit(#[trigger] text[i])
}

/// The number that a string of digits stands for.
pub open spec fn digits_value(text: Seq<u8>) -> nat
    decreases text.len(),
{
    if text.len() == 0 {
        0
    } else {
        digits_value(text.drop_last()) * 10 + (text.last() - 48) as nat
    }
}

/// The digits of a length: the text itself, without a plus sign in front.
pub open spec fn unsigned_part(text: Seq<u8>) -> Seq<u8> {
    if text.len() > 0 && text[0] == 43 {
        text.drop_first()
    } else {
        text
    }
}

/// The length that a header value states: a decimal number that fits 64
/// bits, written in digits alone, with or without a plus sign in front.
pub open spec fn stated_length(text: Seq<u8>) -> Option<u64> {
    let digits = unsigned_part(text);
    if digits.len() > 0 && all_digits(digits) && digits_value(digits) <= u64::MAX {
        Some(digits_value(digits) as u64)
    } else {
        None
    }
}

/// More digits never make a smaller number.
proof fn lemma_digits_value_grows(text: Seq<u8>, count: int)
    requires
        0 <= count <= text.len(),
        all_digits(text),
    ensures
        digits_value(text.take(count)) <= digits_value(text),
    decreases text.len() - count,
{
    if count < text.len() {
        let shorter = text.drop_last();
        assert(all_digits(shorter)) by {
            assert forall|i: int| 0 <= i < shorter.len() implies is_digit(
                #[trigger] shorter[i],
            ) by {
                assert(shorter[i] == text[i]);
            }
        }
        assert(is_digit(text[text.len() - 1]));
        lemma_digits_value_grows(shorter, count);
        assert(shorter.take(count) =~= text.take(count));
    } else {
        assert(text.take(count) =~= text);
    }
}

/// Reads the length that a `Content-Length` header states.
pub fn parse_length(text: &[u8]) -> (length: Option<u64>)
    ensures
        length == stated_length(text@),
{
    let first: usize = if text.len() > 0 && text[0] == 43 {
        1
    } else {
        0
    };
    let digits = vstd::slice::slice_subrange(text, first, text.len());
    assert(digits@ =~= unsigned_part(text@));
    if digits.len() == 0 {
        return None;
    }
    let mut value: u64 = 0;
    let mut at: usize = 0;
    assert(digits@.take(0) =~= Seq::<u8>::empty());
    while at < digits.len()
        invariant
            at <= digits@.len(),
            digits@.len() > 0,
            digits@ == unsigned_part(text@),
            forall|i: int| 0 <= i < at ==> is_digit(#[trigger] digits@[i]),
            value as nat == digits_value(digits@.take(at as int)),
        decreases digits@.len() - at,
    {
        let byte = digits[at];
        if byte < 48 || byte > 57 {
            assert(!is_digit(digits@[at as int]));
            return None;
        }
        let digit = (byte - 48) as u64;
        proof {
            let longer = digits@.take(at as int + 1);
            assert(longer.drop_last() =~= digits@.take(at as int));
            assert(longer.last() == byte);
            if all_digits(digits@) {
                lemma_digits_value_grows(digits@, at as int + 1);
            }
        }
        if value > (u64::MAX - digit) / 10 {
            assert(value * 10 + digit > u64::MAX);
            return None;
        }
        value = value * 10 + digit;
        at = at + 1;
    }
    assert(digits@.take(at as int) =~= digits@);
    Some(value)
}

/// Why a download came to nothing.
#[derive(Clone, Copy, Debug, PartialEq, Eq, Structural)]
pub enum DownloadError {
    /// The server could not be reached, or did not answer a request.
    Unreachable,
    /// The server did not say how long the file is.
    NoContentLength,
    /// The server says that the file is empty.
    EmptyContent,
    /// The server answered a request with a status that is no success.
    BadStatus,
    /// The file could not be created or written.
    Io,
}

/// What to do next for a download.
#[derive(Clone, Copy, Debug, PartialEq, Eq, Structural)]
pub enum DownloadCommand {
    /// Remove what is at the file's place, if anything is.
    Clear,
    /// Ask the server for the file's headers.
    Probe,
    /// Create the file, empty.
    Create,
    /// Ask for the positions from `start` to `end` of the file.
    Fetch { start: u64, end: u64 },
    /// Append the body of the answer to the file.
    Store,
}

/// What came of a command.
#[derive(Clone, Debug, PartialEq, Eq)]
pub enum DownloadReply {
    /// The command was carried out.
    Done,
    /// The command could not be carried out.
    Failed,
    /// The server answered the probe; with the value of its
    /// `Content-Length` header, if it sent one.
    Probed(Option<Vec<u8>>),
    /// The server answered a request with this status.
    Response(u16),
}

/// What a `DownloadReply` holds, as plain values.
pub ghost enum DownloadReplyView {
    Done,
    Failed,
    Probed(Option<Seq<u8>>),
    Response(u16),
}

impl View for DownloadReply {
    type V = DownloadReplyView;

    open spec fn view(&self) -> DownloadReplyView {
        match *self {
            DownloadReply::Done => DownloadReplyView::Done,
            DownloadReply::Failed => DownloadReplyView::Failed,
            DownloadReply::Probed(header) => DownloadReplyView::Probed(
                match header {
                    Some(bytes) => Some(bytes@),
                    None => None,
                },
            ),
            DownloadReply::Response(status) => DownloadReplyView::Response(status),
        }
    }
}

/// How a download ended, if it has.
#[derive(Clone, Copy, Debug, PartialEq, Eq, Structural)]
pub enum DownloadEnd {
    Pending,
    Complete,
    Error(DownloadError),
}

/// Everything a download remembers.
#[derive(Clone, Copy, Debug, PartialEq, Eq)]
pub struct DownloadState {
    /// The command that was handed out and not answered yet.
    pub awaiting: Option<DownloadCommand>,
    /// The length of the file, once the server has stated it.
    pub length: u64,
    /// The number of requests whose answers are in the file.
    pub stored: u64,
    /// The percentage that was announced last.
    pub last_percent: u8,
    pub end: DownloadEnd,
}

/// What one step of a download comes to.
pub ghost struct DownloadOutcome {
    pub state: DownloadState,
    pub notes: Seq<MessageView>,
    pub command: Option<DownloadCommand>,
}

/// What a download hands back from a step.
pub struct DownloadStep {
    /// What to tell the user interface, in order.
    pub notes: Vec<Message>,
    /// The command to carry out next; none once the download has ended.
    pub command: Option<DownloadCommand>,
}

/// The state of a download that has not begun.
pub open spec fn fresh() -> DownloadState {
    DownloadState {
        awaiting: None,
        length: 0,
        stored: 0,
        last_percent: 0,
        end: DownloadEnd::Pending,
    }
}

/// The request that follows once `stored` answers are in the file.
pub open spec fn fetch_at(stored: u64, length: u64) -> DownloadCommand {
    DownloadCommand::Fetch {
        start: range_start(stored as nat) as u64,
        end: range_end(stored as nat, length as nat) as u64,
    }
}

/// The percentage that is reached once `stored` answers are in the file.
pub open spec fn percent_after(stored: u64, length: u64) -> nat {
    if stored == 0 {
        0
    } else {
        percent_of(range_end((stored - 1) as nat, length as nat), length as nat)
    }
}

/// Whether a state is one that a download can be in.
pub open spec fn sound(state: DownloadState) -> bool {
    match state.awaiting {
        None => state.end != DownloadEnd::Pending || state == fresh(),
        Some(command) => {
            &&& state.end == DownloadEnd::Pending
            &&& match command {
                DownloadCommand::Clear | DownloadCommand::Probe => state == (DownloadState {
                    awaiting: Some(command),
                    ..fresh()
                }),
                DownloadCommand::Create
                | DownloadCommand::Fetch { .. }
                | DownloadCommand::Store => {
                    &&& (state.stored as nat) < chunks_of(state.length as nat)
                    &&& state.last_percent as nat == percent_after(state.stored, state.length)
                    &&& command is Fetch ==> command == fetch_at(state.stored, state.length)
                    &&& command is Create ==> state.stored == 0
                },
            }
        },
    }
}

/// The error that a failure of `command` stands for: a file operation
/// that fails is an I/O failure, a request that fails leaves the server
/// unreachable.
pub open spec fn download_failure_of(command: DownloadCommand) -> DownloadError {
    match command {
        DownloadCommand::Clear | DownloadCommand::Create | DownloadCommand::Store => {
            DownloadError::Io
        },
        DownloadCommand::Probe | DownloadCommand::Fetch { .. } => DownloadError::Unreachable,
    }
}

/// The download goes on with `command`.
pub open spec fn carry_on(state: DownloadState, command: DownloadCommand) -> DownloadOutcome {
    DownloadOutcome {
        state: DownloadState { awaiting: Some(command), ..state },
        notes: Seq::empty(),
        command: Some(command),
    }
}

/// The download ends with `error`; nothing is announced.
pub open spec fn give_up(state: DownloadState, error: DownloadError) -> DownloadOutcome {
    DownloadOutcome {
        state: DownloadState { awaiting: None, end: DownloadEnd::Error(error), ..state },
        notes: Seq::empty(),
        command: None,
    }
}

/// Nothing happens: the download has ended.
pub open spec fn rest(state: DownloadState) -> DownloadOutcome {
    DownloadOutcome { state, notes: Seq::empty(), command: None }
}

/// The note that announces a download percentage, unless it is the one
/// that was announced last.
pub open spec fn download_notes(last: u8, percent: u8) -> Seq<MessageView> {
    match announced(last, percent) {
        Some(value) => seq![
            MessageView::PageMessage(PageMessagesView::DownloadFirmwarePercent(value)),
        ],
        None => Seq::empty(),
    }
}

/// The note that hands over the finished file.
pub open spec fn finished_notes(path: Seq<char>) -> Seq<MessageView> {
    seq![MessageView::StepsMessage(StepMessagesView::SelectFile(Some(path)))]
}

/// The first step of a download: what may be at the file's place is
/// removed. On a download that has begun already this does nothing.
pub open spec fn download_begin(state: DownloadState) -> DownloadOutcome {
    if state == fresh() {
        carry_on(state, DownloadCommand::Clear)
    } else {
        rest(state)
    }
}

/// The step that a download takes when the command it was waiting for has
/// been answered. `path` is where the file is written.
pub open spec fn download_next(
    state: DownloadState,
    path: Seq<char>,
    reply: DownloadReplyView,
) -> DownloadOutcome {
    match state.awaiting {
        None => rest(state),
        Some(command) => match reply {
            DownloadReplyView::Failed => give_up(state, download_failure_of(command)),
            DownloadReplyView::Done => match command {
                DownloadCommand::Clear => carry_on(state, DownloadCommand::Probe),
                DownloadCommand::Create => carry_on(state, fetch_at(0, state.length)),
                DownloadCommand::Store => {
                    let stored = (state.stored + 1) as u64;
                    let percent = percent_after(stored, state.length) as u8;
                    let moved = DownloadState { stored, last_percent: percent, ..state };
                    if (stored as nat) < chunks_of(state.length as nat) {
                        DownloadOutcome {
                            notes: download_notes(state.last_percent, percent),
                            ..carry_on(moved, fetch_at(stored, state.length))
                        }
                    } else {
                        DownloadOutcome {
                            state: DownloadState {
                                awaiting: None,
                                end: DownloadEnd::Complete,
                                ..moved
                            },
                            notes: download_notes(state.last_percent, percent) + finished_notes(
                                path,
                            ),
                            command: None,
                        }
                    }
                },
                _ => give_up(state, DownloadError::Unreachable),
            },
            DownloadReplyView::Probed(header) => match command {
                DownloadCommand::Probe => match header {
                    None => give_up(state, DownloadError::NoContentLength),
                    Some(text) => match stated_length(text) {
                        None => give_up(state, DownloadError::NoContentLength),
                        Some(length) => if length == 0 {
                            give_up(state, DownloadError::EmptyContent)
                        } else {
                            carry_on(DownloadState { length, ..state }, DownloadCommand::Create)
                        },
                    },
                },
                _ => give_up(state, DownloadError::Unreachable),
            },
            DownloadReplyView::Response(status) => match command {
                DownloadCommand::Fetch { .. } => if status == STATUS_OK || status
                    == STATUS_PARTIAL_CONTENT {
                    carry_on(state, DownloadCommand::Store)
                } else {
                    give_up(state, DownloadError::BadStatus)
                },
                _ => give_up(state, DownloadError::Unreachable),
            },
        },
    }
}

/// Whether what a step handed back is what `outcome` says.
pub open spec fn download_reports(step: DownloadStep, outcome: DownloadOutcome) -> bool {
    &&& message_views(step.notes@) == outcome.notes
    &&& step.command == outcome.command
}

/// The percentage never falls from one stored chunk to the next, and it
/// stands at one hundred once the last chunk is stored.
pub proof fn lemma_percent_after_rises(stored: u64, length: u64)
    requires
        (stored as nat) < chunks_of(length as nat),
    ensures
        percent_after(stored, length) <= percent_after((stored + 1) as u64, length) <= 100,
        stored + 1 == chunks_of(length as nat) && length as nat % (CHUNK_SIZE as nat) != 0
            ==> percent_after((stored + 1) as u64, length) == 100,
{
    lemma_chunk_in_file(stored as nat, length as nat);
    lemma_percent_of_bounds(range_end(stored as nat, length as nat), length as nat);
    if stored > 0 {
        lemma_chunk_in_file((stored - 1) as nat, length as nat);
        lemma_percent_of_monotonic(
            range_end((stored - 1) as nat, length as nat),
            range_end(stored as nat, length as nat),
            length as nat,
        );
    }
    if stored + 1 == chunks_of(length as nat) && length as nat % (CHUNK_SIZE as nat) != 0 {
        lemma_last_range_end(length as nat);
    }
}

/// A step leaves a download in a state that it can be in, and never lowers
/// the percentage.
pub proof fn lemma_download_keeps_sound(
    state: DownloadState,
    path: Seq<char>,
    reply: DownloadReplyView,
)
    requires
        sound(state),
    ensures
        sound(download_next(state, path, reply).state),
        sound(download_begin(state).state),
        download_next(state, path, reply).state.last_percent >= state.last_percent,
{
    if let Some(command) = state.awaiting {
        match reply {
            DownloadReplyView::Done => {
                if command == DownloadCommand::Store {
                    lemma_percent_after_rises(state.stored, state.length);
                    lemma_chunk_in_file(state.stored as nat, state.length as nat);
                    if state.stored + 1 < chunks_of(state.length as nat) {
                        lemma_chunk_in_file((state.stored + 1) as nat, state.length as nat);
                    }
                }
            },
            DownloadReplyView::Probed(Some(text)) => {
                if let Some(length) = stated_length(text) {
                    if length > 0 {
                        lemma_chunk_count_is_ceiling(length as nat);
                        lemma_chunk_in_file(0, length as nat);
                    }
                }
            },
            _ => {},
        }
    }
}

fn note_download(notes: &mut Vec<Message>, last: u8, percent: u8)
    ensures
        message_views(final(notes)@) == message_views(old(notes)@) + download_notes(last, percent),
{
    let ghost before = message_views(notes@);
    if percent != last {
        let note = Message::PageMessage(PageMessages::DownloadFirmwarePercent(percent));
        notes.push(note);
        assert(message_views(notes@) =~= before + download_notes(last, percent));
    } else {
        assert(message_views(notes@) =~= before + download_notes(last, percent));
    }
}

fn no_messages() -> (notes: Vec<Message>)
    ensures
        message_views(notes@) == Seq::<MessageView>::empty(),
{
    let notes: Vec<Message> = Vec::new();
    assert(message_views(notes@) =~= Seq::<MessageView>::empty());
    notes
}

fn do_carry_on(state: DownloadState, command: DownloadCommand) -> (out: (
    DownloadState,
    DownloadStep,
))
    ensures
        out.0 == carry_on(state, command).state,
        download_reports(out.1, carry_on(state, command)),
{
    let after = DownloadState {
        awaiting: Some(command),
        length: state.length,
        stored: state.stored,
        last_percent: state.last_percent,
        end: state.end,
    };
    (after, DownloadStep { notes: no_messages(), command: Some(command) })
}

fn do_give_up(state: DownloadState, error: DownloadError) -> (out: (DownloadState, DownloadStep))
    ensures
        out.0 == give_up(state, error).state,
        download_reports(out.1, give_up(state, error)),
{
    let after = DownloadState {
        awaiting: None,
        length: state.length,
        stored: state.stored,
        last_percent: state.last_percent,
        end: DownloadEnd::Error(error),
    };
    (after, DownloadStep { notes: no_messages(), command: None })
}

fn do_rest(state: DownloadState) -> (out: (DownloadState, DownloadStep))
    ensures
        out.0 == rest(state).state,
        download_reports(out.1, rest(state)),
{
    (state, DownloadStep { notes: no_messages(), command: None })
}

fn fetch_for(stored: u64, length: u64) -> (command: DownloadCommand)
    requires
        (stored as nat) < chunks_of(length as nat),
    ensures
        command == fetch_at(stored, length),
{
    match chunk_range(stored, length) {
        Some((start, end)) => DownloadCommand::Fetch { start, end },
        None => DownloadCommand::Probe,
    }
}

fn failure_kind(command: DownloadCommand) -> (error: DownloadError)
    ensures
        error == download_failure_of(command),
{
    match command {
        DownloadCommand::Clear => DownloadError::Io,
        DownloadCommand::Create => DownloadError::Io,
        DownloadCommand::Store => DownloadError::Io,
        DownloadCommand::Probe => DownloadError::Unreachable,
        DownloadCommand::Fetch { .. } => DownloadError::Unreachable,
    }
}

fn step_stored(state: DownloadState, path: &String) -> (out: (DownloadState, DownloadStep))
    requires
        sound(state),
        state.awaiting == Some(DownloadCommand::Store),
    ensures
        out.0 == download_next(state, path@, DownloadReplyView::Done).state,
        download_reports(out.1, download_next(state, path@, DownloadReplyView::Done)),
{
    proof {
        lemma_percent_after_rises(state.stored, state.length);
        lemma_chunk_in_file(state.stored as nat, state.length as nat);
    }
    let end = match chunk_range(state.stored, state.length) {
        Some((_, end)) => end,
        None => state.length,
    };
    let stored = state.stored + 1;
    let percent = percentage(end, state.length);
    let mut notes = no_messages();
    note_download(&mut notes, state.last_percent, percent);
    if stored < chunk_count(state.length) {
        let command = fetch_for(stored, state.length);
        let after = DownloadState {
            awaiting: Some(command),
            length: state.length,
            stored,
            last_percent: percent,
            end: state.end,
        };
        assert(message_views(notes@) =~= download_notes(state.last_percent, percent));
        (after, DownloadStep { notes, command: Some(command) })
    } else {
        let ghost before = message_views(notes@);
        let note = Message::StepsMessage(StepMessages::SelectFile(Some(path.clone())));
        notes.push(note);
        assert(message_views(notes@) =~= download_notes(state.last_percent, percent)
            + finished_notes(path@));
        let after = DownloadState {
            awaiting: None,
            length: state.length,
            stored,
            last_percent: percent,
            end: DownloadEnd::Complete,
        };
        (after, DownloadStep { notes, command: None })
    }
}

fn step_probed(state: DownloadState, header: Option<Vec<u8>>) -> (out: (
    DownloadState,
    DownloadStep,
))
    requires
        sound(state),
        state.awaiting == Some(DownloadCommand::Probe),
    ensures
        out.0 == download_next(
            state,
            Seq::empty(),
            (DownloadReply::Probed(header))@,
        ).state,
        download_reports(
            out.1,
            download_next(state, Seq::empty(), (DownloadReply::Probed(header))@),
        ),
{
    let text = match header {
        Some(text) => text,
        None => {
            return do_give_up(state, DownloadError::NoContentLength);
        },
    };
    match parse_length(text.as_slice()) {
        None => do_give_up(state, DownloadError::NoContentLength),
        Some(length) => {
            if length == 0 {
                do_give_up(state, DownloadError::EmptyContent)
            } else {
                proof {
                    lemma_chunk_count_is_ceiling(length as nat);
                }
                let moved = DownloadState {
                    awaiting: state.awaiting,
                    length,
                    stored: state.stored,
                    last_percent: state.last_percent,
                    end: state.end,
                };
                do_carry_on(moved, DownloadCommand::Create)
            }
        },
    }
}

fn download_step(state: DownloadState, path: &String, reply: DownloadReply) -> (out: (
    DownloadState,
    DownloadStep,
))
    requires
        sound(state),
    ensures
        out.0 == download_next(state, path@, reply@).state,
        download_reports(out.1, download_next(state, path@, reply@)),
{
    let command = match state.awaiting {
        Some(command) => command,
        None => {
            return do_rest(state);
        },
    };
    match reply {
        DownloadReply::Failed => do_give_up(state, failure_kind(command)),
        DownloadReply::Done => match command {
            DownloadCommand::Clear => do_carry_on(state, DownloadCommand::Probe),
            DownloadCommand::Create => do_carry_on(state, fetch_for(0, state.length)),
            DownloadCommand::Store => step_stored(state, path),
            _ => do_give_up(state, DownloadError::Unreachable),
        },
        DownloadReply::Probed(header) => match command {
            DownloadCommand::Probe => step_probed(state, header),
            _ => do_give_up(state, DownloadError::Unreachable),
        },
        DownloadReply::Response(status) => match command {
            DownloadCommand::Fetch { .. } => if status == STATUS_OK || status
                == STATUS_PARTIAL_CONTENT {
                do_carry_on(state, DownloadCommand::Store)
            } else {
                do_give_up(state, DownloadError::BadStatus)
            },
            _ => do_give_up(state, DownloadError::Unreachable),
        },
    }
}

/// One download of the firmware of one model.
pub struct DownloadSession {
    device_type: DeviceType,
    path: String,
    state: DownloadState,
}

impl DownloadSession {
    #[verifier::type_invariant]
    spec fn in_order(self) -> bool {
        sound(self.state) && self.device_type != DeviceType::Unknown
    }

    /// Where the download stands.
    pub closed spec fn state(&self) -> DownloadState {
        self.state
    }

    /// The model whose firmware is fetched.
    pub closed spec fn model(&self) -> DeviceType {
        self.device_type
    }

    /// Where the file is written.
    pub closed spec fn target(&self) -> Seq<char> {
        self.path@
    }

    /// A download of the firmware of `device_type`, to be written to
    /// `path`. There is nothing to fetch for a device of no known model.
    pub fn new(device_type: DeviceType, path: String) -> (session: Option<DownloadSession>)
        ensures
            session is Some == (device_type != DeviceType::Unknown),
            session is Some ==> {
                &&& session->0.state() == fresh()
                &&& session->0.model() == device_type
                &&& session->0.target() == path@
            },
    {
        match device_type {
            DeviceType::Unknown => None,
            _ => Some(
                DownloadSession {
                    device_type,
                    path,
                    state: DownloadState {
                        awaiting: None,
                        length: 0,
                        stored: 0,
                        last_percent: 0,
                        end: DownloadEnd::Pending,
                    },
                },
            ),
        }
    }

    /// The address that the file is fetched from.
    pub fn url(&self) -> (url: String)
        ensures
            file_name(self.model()) is Some,
            url@ == base_url() + file_name(self.model())->0,
    {
        proof {
            use_type_invariant(self);
        }
        match firmware_url(self.device_type) {
            Some(url) => url,
            None => String::new(),
        }
    }

    /// Begins the download: what may be at the file's place is to be
    /// removed. The file itself is created only once the server has stated
    /// a length above zero. On a download that has begun this does nothing.
    pub fn start(&mut self) -> (step: DownloadStep)
        ensures
            final(self).state() == download_begin(old(self).state()).state,
            download_reports(step, download_begin(old(self).state())),
            final(self).model() == old(self).model(),
            final(self).target() == old(self).target(),
            sound(old(self).state()),
            sound(final(self).state()),
    {
        proof {
            use_type_invariant(&*self);
            lemma_download_keeps_sound(self.state, self.path@, DownloadReplyView::Done);
        }
        let fresh_state = self.state.awaiting.is_none() && self.state.length == 0
            && self.state.stored == 0 && self.state.last_percent == 0 && match self.state.end {
            DownloadEnd::Pending => true,
            _ => false,
        };
        let (after, step) = if fresh_state {
            do_carry_on(self.state, DownloadCommand::Clear)
        } else {
            do_rest(self.state)
        };
        self.state = after;
        step
    }

    /// Takes what came of the command that was handed out last, and says
    /// what follows. Once the download has ended this does nothing.
    pub fn advance(&mut self, reply: DownloadReply) -> (step: DownloadStep)
        ensures
            final(self).state() == download_next(
                old(self).state(),
                old(self).target(),
                reply@,
            ).state,
            download_reports(
                step,
                download_next(old(self).state(), old(self).target(), reply@),
            ),
            final(self).model() == old(self).model(),
            final(self).target() == old(self).target(),
            sound(old(self).state()),
            sound(final(self).state()),
    {
        proof {
            use_type_invariant(&*self);
            lemma_download_keeps_sound(self.state, self.path@, reply@);
        }
        let (after, step) = download_step(self.state, &self.path, reply);
        self.state = after;
        step
    }

    /// Everything the download remembers.
    pub fn current(&self) -> (state: DownloadState)
        ensures
            state == self.state(),
            sound(state),
    {
        proof {
            use_type_invariant(self);
        }
        self.state
    }

    /// How the download ended: with the path of the file, or with the
    /// error; nothing while it is still under way.
    pub fn outcome(&self) -> (outcome: Option<Result<String, DownloadError>>)
        ensures
            match self.state().end {
                DownloadEnd::Pending => outcome is None,
                DownloadEnd::Complete => outcome is Some && outcome->0 is Ok
                    && outcome->0->Ok_0@ == self.target(),
                DownloadEnd::Error(error) => outcome == Some(
                    Err::<String, DownloadError>(error),
                ),
            },
    {
        match self.state.end {
            DownloadEnd::Pending => None,
            DownloadEnd::Complete => Some(Ok(self.path.clone())),
            DownloadEnd::Error(error) => Some(Err(error)),
        }
    }
}

} // verus!
