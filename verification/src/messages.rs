//! What the workers tell whoever shows the update to the user.

use crate::device::{device_views, Device, DeviceType, DeviceView};
use crate::version::VersionNumber;
use vstd::prelude::*;

verus! {

/// The two ways to come by a firmware image.
#[derive(Clone, Copy, Debug, PartialEq, Eq, Structural)]
pub enum SelectUpdateOption {
    Download,
    File,
}

/// A firmware file that was read and found to be an image.
#[derive(Clone, Debug, PartialEq, Eq)]
pub struct FirmwareDetails {
    pub path: String,
    pub device_type: DeviceType,
    pub version: VersionNumber,
}

/// What a `FirmwareDetails` holds, as plain values.
pub ghost struct FirmwareDetailsView {
    pub path: Seq<char>,
    pub device_type: DeviceType,
    pub version: VersionNumber,
}

impl View for FirmwareDetails {
    type V = FirmwareDetailsView;

    open spec fn view(&self) -> FirmwareDetailsView {
        FirmwareDetailsView {
            path: self.path@,
            device_type: self.device_type,
            version: self.version,
        }
    }
}

impl FirmwareDetails {
    /// A second value that describes the same file.
    pub fn duplicate(&self) -> (copy: FirmwareDetails)
        ensures
            copy@ == self@,
    {
        FirmwareDetails {
            path: self.path.clone(),
            device_type: self.device_type,
            version: self.version,
        }
    }
}

/// A message for the page that is on screen.
#[derive(Clone, Debug, PartialEq, Eq)]
pub enum PageMessages {
    NoneBool(bool),
    ToggleAcceptLicenseOne(bool),
    ToggleAcceptLicenseTwo(bool),
    /// Which of the official app, its beta and the utility are running.
    UpdateStatusCheck(bool, bool, bool),
    UpdateDeviceList(Vec<Device>),
    SelectFirmwareOption(SelectUpdateOption),
    SelectDevice(usize),
    SelectFirmware,
    DownloadFirmwarePercent(u8),
    SetAcceptDowngrade(bool),
    SetFirmwareValid(bool),
    /// The name of the update stage that has begun.
    UpdateFirmwareStage(String),
    /// How far the current stage has come.
    UpdateFirmwarePercent(u8),
    /// How the update ended, in words.
    UpdateFirmwareMessage(String),
    UpdateFirmwareComplete(bool),
    UpdateFirmwareIsError(bool),
}

/// What a `PageMessages` holds, as plain values.
pub ghost enum PageMessagesView {
    NoneBool(bool),
    ToggleAcceptLicenseOne(bool),
    ToggleAcceptLicenseTwo(bool),
    UpdateStatusCheck(bool, bool, bool),
    UpdateDeviceList(Seq<DeviceView>),
    SelectFirmwareOption(SelectUpdateOption),
    SelectDevice(usize),
    SelectFirmware,
    DownloadFirmwarePercent(u8),
    SetAcceptDowngrade(bool),
    SetFirmwareValid(bool),
    UpdateFirmwareStage(Seq<char>),
    UpdateFirmwarePercent(u8),
    UpdateFirmwareMessage(Seq<char>),
    UpdateFirmwareComplete(bool),
    UpdateFirmwareIsError(bool),
}

impl View for PageMessages {
    type V = PageMessagesView;

    open spec fn view(&self) -> PageMessagesView {
        match *self {
            PageMessages::NoneBool(b) => PageMessagesView::NoneBool(b),
            PageMessages::ToggleAcceptLicenseOne(b) => PageMessagesView::ToggleAcceptLicenseOne(b),
            PageMessages::ToggleAcceptLicenseTwo(b) => PageMessagesView::ToggleAcceptLicenseTwo(b),
            PageMessages::UpdateStatusCheck(app, beta, util) => PageMessagesView::UpdateStatusCheck(
                app,
                beta,
                util,
            ),
            PageMessages::UpdateDeviceList(list) => PageMessagesView::UpdateDeviceList(
                device_views(list@),
            ),
            PageMessages::SelectFirmwareOption(option) => PageMessagesView::SelectFirmwareOption(
                option,
            ),
            PageMessages::SelectDevice(index) => PageMessagesView::SelectDevice(index),
            PageMessages::SelectFirmware => PageMessagesView::SelectFirmware,
            PageMessages::DownloadFirmwarePercent(p) => PageMessagesView::DownloadFirmwarePercent(
                p,
            ),
            PageMessages::SetAcceptDowngrade(b) => PageMessagesView::SetAcceptDowngrade(b),
            PageMessages::SetFirmwareValid(b) => PageMessagesView::SetFirmwareValid(b),
            PageMessages::UpdateFirmwareStage(text) => PageMessagesView::UpdateFirmwareStage(
                text@,
            ),
            PageMessages::UpdateFirmwarePercent(p) => PageMessagesView::UpdateFirmwarePercent(p),
            PageMessages::UpdateFirmwareMessage(text) => PageMessagesView::UpdateFirmwareMessage(
                text@,
            ),
            PageMessages::UpdateFirmwareComplete(b) => PageMessagesView::UpdateFirmwareComplete(b),
            PageMessages::UpdateFirmwareIsError(b) => PageMessagesView::UpdateFirmwareIsError(b),
        }
    }
}

/// A message for the wizard as a whole, whichever page is on screen.
#[derive(Clone, Debug, PartialEq, Eq)]
pub enum StepMessages {
    SetDevice(Device),
    /// The firmware file that was chosen or downloaded, by its path.
    SelectFile(Option<String>),
    SetUpdateType(SelectUpdateOption),
    SetFirmware(FirmwareDetails),
    ClearFirmware(),
}

/// What a `StepMessages` holds, as plain values.
pub ghost enum StepMessagesView {
    SetDevice(DeviceView),
    SelectFile(Option<Seq<char>>),
    SetUpdateType(SelectUpdateOption),
    SetFirmware(FirmwareDetailsView),
    ClearFirmware(),
}

impl View for StepMessages {
    type V = StepMessagesView;

    open spec fn view(&self) -> StepMessagesView {
        match *self {
            StepMessages::SetDevice(device) => StepMessagesView::SetDevice(device@),
            StepMessages::SelectFile(path) => StepMessagesView::SelectFile(
                match path {
                    Some(text) => Some(text@),
                    None => None,
                },
            ),
            StepMessages::SetUpdateType(option) => StepMessagesView::SetUpdateType(option),
            StepMessages::SetFirmware(details) => StepMessagesView::SetFirmware(details@),
            StepMessages::ClearFirmware() => StepMessagesView::ClearFirmware(),
        }
    }
}

/// Everything that can be sent to the user interface.
#[derive(Clone, Debug, PartialEq, Eq)]
pub enum Message {
    NextPressed,
    StepsMessage(StepMessages),
    PageMessage(PageMessages),
}

/// What a `Message` holds, as plain values.
pub ghost enum MessageView {
    NextPressed,
    StepsMessage(StepMessagesView),
    PageMessage(PageMessagesView),
}

impl View for Message {
    type V = MessageView;

    open spec fn view(&self) -> MessageView {
        match *self {
            Message::NextPressed => MessageView::NextPressed,
            Message::StepsMessage(inner) => MessageView::StepsMessage(inner@),
            Message::PageMessage(inner) => MessageView::PageMessage(inner@),
        }
    }
}

/// The views of a list of page messages, in order.
pub open spec fn page_views(notes: Seq<PageMessages>) -> Seq<PageMessagesView> {
    notes.map_values(|m: PageMessages| m@)
}

/// The views of a list of messages, in order.
pub open spec fn message_views(notes: Seq<Message>) -> Seq<MessageView> {
    notes.map_values(|m: Message| m@)
}

/// Appends one page message to a list.
pub fn push_note(notes: &mut Vec<PageMessages>, note: PageMessages)
    ensures
        page_views(final(notes)@) == page_views(old(notes)@).push(note@),
{
    let ghost before = notes@;
    notes.push(note);
    assert(page_views(notes@) =~= page_views(before).push(note@));
}

} // verus!
