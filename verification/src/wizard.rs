//! The pages of the update wizard: what each one holds, when the user may
//! go on, and what each message does to them.
//!
//! Nothing here draws anything. A page says what is to be shown and which
//! work is to be started; showing it and doing the work is up to the caller.

use crate::device::{device_views, Device, DeviceType, DeviceView};
use crate::firmware::{check_firmware, parsed, FirmwareInfo};
use crate::messages::{
    message_views, FirmwareDetails, FirmwareDetailsView, Message, MessageView, PageMessages,
    PageMessagesView, SelectUpdateOption, StepMessages, StepMessagesView,
};
use vstd::prelude::*;
use vstd::string::*;

verus! {

/// Work that a page asks to be started.
#[derive(Clone, Debug, PartialEq, Eq)]
pub enum Task {
    /// Watch for programs that hold the device until none is left.
    CheckStatus,
    /// Look for connected devices.
    FindDevices,
    /// Fetch the firmware of this model.
    Download(DeviceType),
    /// Let the user pick a firmware file.
    PickFile,
    /// Install this firmware on this device.
    Update(Device, FirmwareDetails),
}

/// What a `Task` holds, as plain values.
pub ghost enum TaskView {
    CheckStatus,
    FindDevices,
    Download(DeviceType),
    PickFile,
    Update(DeviceView, FirmwareDetailsView),
}

impl View for Task {
    type V = TaskView;

    open spec fn view(&self) -> TaskView {
        match *self {
            Task::CheckStatus => TaskView::CheckStatus,
            Task::FindDevices => TaskView::FindDevices,
            Task::Download(device_type) => TaskView::Download(device_type),
            Task::PickFile => TaskView::PickFile,
            Task::Update(device, firmware) => TaskView::Update(device@, firmware@),
        }
    }
}

/// The view of a task that may be missing.
pub open spec fn task_view(task: Option<Task>) -> Option<TaskView> {
    match task {
        Some(task) => Some(task@),
        None => None,
    }
}

/// One page of the wizard, with what the user has entered on it.
#[allow(inconsistent_fields)]
#[derive(Clone, Debug, PartialEq, Eq)]
pub enum Step {
    Welcome,
    LicenseOne { agreed: bool },
    LicenseTwo { agreed: bool },
    /// Whether the official app, its beta and the utility are closed.
    Status { app: bool, beta: bool, util: bool },
    LocateGoXLR { devices: Option<Vec<Device>>, selected: Option<usize> },
    UpdateMethod { selected: Option<SelectUpdateOption> },
    SelectFile {
        file_valid: bool,
        device: Option<Device>,
        fetch_method: Option<SelectUpdateOption>,
        progress: u8,
        file: Option<String>,
        details: Option<FirmwareDetails>,
        downgrade: bool,
    },
    RunUpdate {
        device: Option<Device>,
        firmware: Option<FirmwareDetails>,
        stage: String,
        percentage: u8,
        message: Option<String>,
        complete: bool,
        is_error: bool,
    },
    Finish,
}

/// What a `Step` holds, as plain values.
#[allow(inconsistent_fields)]
pub ghost enum StepView {
    Welcome,
    LicenseOne { agreed: bool },
    LicenseTwo { agreed: bool },
    Status { app: bool, beta: bool, util: bool },
    LocateGoXLR { devices: Option<Seq<DeviceView>>, selected: Option<usize> },
    UpdateMethod { selected: Option<SelectUpdateOption> },
    SelectFile {
        file_valid: bool,
        device: Option<DeviceView>,
        fetch_method: Option<SelectUpdateOption>,
        progress: u8,
        file: Option<Seq<char>>,
        details: Option<FirmwareDetailsView>,
        downgrade: bool,
    },
    RunUpdate {
        device: Option<DeviceView>,
        firmware: Option<FirmwareDetailsView>,
        stage: Seq<char>,
        percentage: u8,
        message: Option<Seq<char>>,
        complete: bool,
        is_error: bool,
    },
    Finish,
}

/// The view of a device that may be missing.
pub open spec fn device_view(device: Option<Device>) -> Option<DeviceView> {
    match device {
        Some(device) => Some(device@),
        None => None,
    }
}

/// The view of firmware details that may be missing.
pub open spec fn details_view(details: Option<FirmwareDetails>) -> Option<FirmwareDetailsView> {
    match details {
        Some(details) => Some(details@),
        None => None,
    }
}

/// The view of a text that may be missing.
pub open spec fn text_view(text: Option<String>) -> Option<Seq<char>> {
    match text {
        Some(text) => Some(text@),
        None => None,
    }
}

impl View for Step {
    type V = StepView;

    open spec fn view(&self) -> StepView {
        match *self {
            Step::Welcome => StepView::Welcome,
            Step::LicenseOne { agreed } => StepView::LicenseOne { agreed },
            Step::LicenseTwo { agreed } => StepView::LicenseTwo { agreed },
            Step::Status { app, beta, util } => StepView::Status { app, beta, util },
            Step::LocateGoXLR { devices, selected } => StepView::LocateGoXLR {
                devices: match devices {
                    Some(list) => Some(device_views(list@)),
                    None => None,
                },
                selected,
            },
            Step::UpdateMethod { selected } => StepView::UpdateMethod { selected },
            Step::SelectFile {
                file_valid,
                device,
                fetch_method,
                progress,
                file,
                details,
                downgrade,
            } => StepView::SelectFile {
                file_valid,
                device: device_view(device),
                fetch_method,
                progress,
                file: text_view(file),
                details: details_view(details),
                downgrade,
            },
            Step::RunUpdate {
                device,
                firmware,
                stage,
                percentage,
                message,
                complete,
                is_error,
            } => StepView::RunUpdate {
                device: device_view(device),
                firmware: details_view(firmware),
                stage: stage@,
                percentage,
                message: text_view(message),
                complete,
                is_error,
            },
            Step::Finish => StepView::Finish,
        }
    }
}

/// The heading of a page.
pub open spec fn title_of(step: StepView) -> Seq<char> {
    match step {
        StepView::Welcome => "Welcome"@,
        StepView::LicenseOne { .. } => "MIT License Agreement"@,
        StepView::LicenseTwo { .. } => "TC-Helicon License Agreement"@,
        StepView::Status { .. } => "Checking Environment"@,
        StepView::LocateGoXLR { .. } => "Locating GoXLRs"@,
        StepView::UpdateMethod { .. } => "Select Update Method"@,
        StepView::SelectFile { fetch_method: Some(SelectUpdateOption::Download), file, .. } => {
            if file is None {
                "Downloading Firmware"@
            } else {
                "Download Complete"@
            }
        },
        StepView::SelectFile { .. } => "Select Firmware File"@,
        StepView::RunUpdate { .. } => "Updating.."@,
        StepView::Finish => "Finished."@,
    }
}

/// The line under the heading of a page.
pub open spec fn description_of(step: StepView) -> Seq<char> {
    match step {
        StepView::Welcome => "Welcome to the GoXLR Firmware Updater"@,
        StepView::LicenseOne { .. } => "Please review the license terms before updating your firmware"@,
        StepView::LicenseTwo { .. } => "Please review the license terms before updating your firmware"@,
        StepView::Status { .. } => "Please ensure all GoXLR apps are closed before continuing"@,
        StepView::LocateGoXLR { .. } => "Please select a GoXLR from the list below"@,
        StepView::UpdateMethod { .. } => "Please Select the update method"@,
        StepView::SelectFile { fetch_method: Some(SelectUpdateOption::Download), file, .. } => {
            if file is None {
                "Please wait while the firmware downloads from TC-Helicon's servers"@
            } else {
                "Please continue when ready"@
            }
        },
        StepView::SelectFile { .. } => "Please select the correct firmware file for your GoXLR"@,
        StepView::RunUpdate { .. } => "Firmware updating, do not power off your GoXLR or computer"@,
        StepView::Finish => "Update has been completed"@,
    }
}

/// Whether the user may leave a page for the next.
pub open spec fn may_continue(step: StepView) -> bool {
    match step {
        StepView::Welcome => true,
        StepView::LicenseOne { agreed } => agreed,
        StepView::LicenseTwo { agreed } => agreed,
        StepView::Status { app, beta, util } => app && beta && util,
        StepView::LocateGoXLR { selected, .. } => selected is Some,
        StepView::UpdateMethod { .. } => true,
        StepView::SelectFile { file_valid, .. } => file_valid,
        StepView::RunUpdate { complete, .. } => complete,
        StepView::Finish => false,
    }
}

/// The work that a page asks for when it comes on screen.
pub open spec fn task_on_display(step: StepView) -> Option<TaskView> {
    match step {
        StepView::Status { .. } => Some(TaskView::CheckStatus),
        StepView::LocateGoXLR { .. } => Some(TaskView::FindDevices),
        StepView::SelectFile {
            fetch_method: Some(SelectUpdateOption::Download),
            device: Some(device),
            ..
        } => Some(TaskView::Download(device.device_type)),
        StepView::RunUpdate { device: Some(device), firmware: Some(firmware), .. } => Some(
            TaskView::Update(device, firmware),
        ),
        _ => None,
    }
}

/// A page after a message for the page on screen.
pub open spec fn page_updated(step: StepView, msg: PageMessagesView) -> StepView {
    match (msg, step) {
        (PageMessagesView::ToggleAcceptLicenseOne(value), StepView::LicenseOne { .. }) => {
            StepView::LicenseOne { agreed: value }
        },
        (PageMessagesView::ToggleAcceptLicenseTwo(value), StepView::LicenseTwo { .. }) => {
            StepView::LicenseTwo { agreed: value }
        },
        (PageMessagesView::UpdateStatusCheck(app, beta, util), StepView::Status { .. }) => {
            StepView::Status { app: !app, beta: !beta, util: !util }
        },
        (PageMessagesView::UpdateDeviceList(list), StepView::LocateGoXLR { selected, .. }) => {
            StepView::LocateGoXLR { devices: Some(list), selected }
        },
        (PageMessagesView::SelectDevice(index), StepView::LocateGoXLR { devices, .. }) => {
            StepView::LocateGoXLR { devices, selected: Some(index) }
        },
        (PageMessagesView::SelectFirmwareOption(method), StepView::UpdateMethod { .. }) => {
            StepView::UpdateMethod { selected: Some(method) }
        },
        (
            PageMessagesView::DownloadFirmwarePercent(percent),
            StepView::SelectFile { file_valid, device, fetch_method, file, details, downgrade, .. },
        ) => StepView::SelectFile {
            file_valid,
            device,
            fetch_method,
            progress: percent,
            file,
            details,
            downgrade,
        },
        (
            PageMessagesView::SetAcceptDowngrade(value),
            StepView::SelectFile { file_valid, device, fetch_method, progress, file, details, .. },
        ) => StepView::SelectFile {
            file_valid,
            device,
            fetch_method,
            progress,
            file,
            details,
            downgrade: value,
        },
        (
            PageMessagesView::SetFirmwareValid(value),
            StepView::SelectFile { device, fetch_method, progress, file, details, downgrade, .. },
        ) => StepView::SelectFile {
            file_valid: value,
            device,
            fetch_method,
            progress,
            file,
            details,
            downgrade,
        },
        (
            PageMessagesView::UpdateFirmwareStage(value),
            StepView::RunUpdate { device, firmware, percentage, message, complete, is_error, .. },
        ) => StepView::RunUpdate {
            device,
            firmware,
            stage: value,
            percentage,
            message,
            complete,
            is_error,
        },
        (
            PageMessagesView::UpdateFirmwarePercent(value),
            StepView::RunUpdate { device, firmware, stage, message, complete, is_error, .. },
        ) => StepView::RunUpdate {
            device,
            firmware,
            stage,
            percentage: value,
            message,
            complete,
            is_error,
        },
        (
            PageMessagesView::UpdateFirmwareMessage(value),
            StepView::RunUpdate { device, firmware, stage, percentage, complete, is_error, .. },
        ) => StepView::RunUpdate {
            device,
            firmware,
            stage,
            percentage,
            message: Some(value),
            complete,
            is_error,
        },
        (
            PageMessagesView::UpdateFirmwareComplete(value),
            StepView::RunUpdate { device, firmware, stage, percentage, message, is_error, .. },
        ) => StepView::RunUpdate {
            device,
            firmware,
            stage,
            percentage,
            message,
            complete: value,
            is_error,
        },
        (
            PageMessagesView::UpdateFirmwareIsError(value),
            StepView::RunUpdate { device, firmware, stage, percentage, message, complete, .. },
        ) => StepView::RunUpdate {
            device,
            firmware,
            stage,
            percentage,
            message,
            complete,
            is_error: value,
        },
        _ => step,
    }
}

/// What a page sends on when it takes a message: choosing a device or a
/// way to update is passed on to the pages that follow.
pub open spec fn page_sends(step: StepView, msg: PageMessagesView) -> Seq<MessageView> {
    match (msg, step) {
        (
            PageMessagesView::SelectDevice(index),
            StepView::LocateGoXLR { devices: Some(list), .. },
        ) => if index < list.len() {
            seq![MessageView::StepsMessage(StepMessagesView::SetDevice(list[index as int]))]
        } else {
            Seq::empty()
        },
        (PageMessagesView::SelectFirmwareOption(method), StepView::UpdateMethod { .. }) => seq![
            MessageView::StepsMessage(StepMessagesView::SetUpdateType(method)),
        ],
        _ => Seq::empty(),
    }
}

/// The work that a page asks for when it takes a message.
pub open spec fn page_asks(step: StepView, msg: PageMessagesView) -> Option<TaskView> {
    match (msg, step) {
        (PageMessagesView::SelectFirmware, StepView::SelectFile { .. }) => Some(
            TaskView::PickFile,
        ),
        _ => None,
    }
}

/// What a page does in answer to a message.
pub struct Reaction {
    /// Messages to send on, in order.
    pub messages: Vec<Message>,
    /// Work to start.
    pub task: Option<Task>,
}

impl Step {
    /// The heading of the page.
    pub fn title(&self) -> (text: &'static str)
        ensures
            text@ == title_of(self@),
    {
        match self {
            Step::Welcome => "Welcome",
            Step::LicenseOne { .. } => "MIT License Agreement",
            Step::LicenseTwo { .. } => "TC-Helicon License Agreement",
            Step::Status { .. } => "Checking Environment",
            Step::LocateGoXLR { .. } => "Locating GoXLRs",
            Step::UpdateMethod { .. } => "Select Update Method",
            Step::SelectFile { fetch_method, file, .. } => match fetch_method {
                Some(SelectUpdateOption::Download) => match file {
                    None => "Downloading Firmware",
                    Some(_) => "Download Complete",
                },
                _ => "Select Firmware File",
            },
            Step::RunUpdate { .. } => "Updating..",
            Step::Finish => "Finished.",
        }
    }

    /// The line under the heading of the page.
    pub fn description(&self) -> (text: &'static str)
        ensures
            text@ == description_of(self@),
    {
        match self {
            Step::Welcome => "Welcome to the GoXLR Firmware Updater",
            Step::LicenseOne { .. } => "Please review the license terms before updating your firmware",
            Step::LicenseTwo { .. } => "Please review the license terms before updating your firmware",
            Step::Status { .. } => "Please ensure all GoXLR apps are closed before continuing",
            Step::LocateGoXLR { .. } => "Please select a GoXLR from the list below",
            Step::UpdateMethod { .. } => "Please Select the update method",
            Step::SelectFile { fetch_method, file, .. } => match fetch_method {
                Some(SelectUpdateOption::Download) => match file {
                    None => "Please wait while the firmware downloads from TC-Helicon's servers",
                    Some(_) => "Please continue when ready",
                },
                _ => "Please select the correct firmware file for your GoXLR",
            },
            Step::RunUpdate { .. } => "Firmware updating, do not power off your GoXLR or computer",
            Step::Finish => "Update has been completed",
        }
    }

    /// Whether the user may leave the page for the next.
    pub fn can_continue(&self) -> (allowed: bool)
        ensures
            allowed == may_continue(self@),
    {
        match self {
            Step::Welcome => true,
            Step::LicenseOne { agreed } => *agreed,
            Step::LicenseTwo { agreed } => *agreed,
            Step::Status { app, beta, util } => *app && *beta && *util,
            Step::LocateGoXLR { selected, .. } => selected.is_some(),
            Step::UpdateMethod { .. } => true,
            Step::SelectFile { file_valid, .. } => *file_valid,
            Step::RunUpdate { complete, .. } => *complete,
            Step::Finish => false,
        }
    }

    /// The work to start when the page comes on screen.
    pub fn pre_display(&self) -> (task: Option<Task>)
        ensures
            task_view(task) == task_on_display(self@),
    {
        match self {
            Step::Status { .. } => Some(Task::CheckStatus),
            Step::LocateGoXLR { .. } => Some(Task::FindDevices),
            Step::SelectFile { fetch_method, device, .. } => match fetch_method {
                Some(SelectUpdateOption::Download) => match device {
                    Some(device) => Some(Task::Download(device.device_type)),
                    None => None,
                },
                _ => None,
            },
            Step::RunUpdate { device, firmware, .. } => match device {
                Some(device) => match firmware {
                    Some(firmware) => Some(Task::Update(device.duplicate(), firmware.duplicate())),
                    None => None,
                },
                None => None,
            },
            _ => None,
        }
    }
}

fn no_reaction() -> (reaction: Reaction)
    ensures
        message_views(reaction.messages@) == Seq::<MessageView>::empty(),
        reaction.task is None,
{
    let messages: Vec<Message> = Vec::new();
    assert(message_views(messages@) =~= Seq::<MessageView>::empty());
    Reaction { messages, task: None }
}

fn one_message(message: Message) -> (reaction: Reaction)
    ensures
        message_views(reaction.messages@) == seq![message@],
        reaction.task is None,
{
    let mut messages: Vec<Message> = Vec::new();
    messages.push(message);
    assert(message_views(messages@) =~= seq![message@]);
    Reaction { messages, task: None }
}

impl Step {
    /// Takes a message for the page on screen. A message that is meant for
    /// another kind of page changes nothing.
    pub fn update(&mut self, msg: PageMessages) -> (reaction: Reaction)
        ensures
            final(self)@ == page_updated(old(self)@, msg@),
            message_views(reaction.messages@) == page_sends(old(self)@, msg@),
            task_view(reaction.task) == page_asks(old(self)@, msg@),
    {
        match msg {
            PageMessages::ToggleAcceptLicenseOne(value) => {
                match self {
                    Step::LicenseOne { agreed } => {
                        *agreed = value;
                    },
                    _ => {},
                }
                no_reaction()
            },
            PageMessages::ToggleAcceptLicenseTwo(value) => {
                match self {
                    Step::LicenseTwo { agreed } => {
                        *agreed = value;
                    },
                    _ => {},
                }
                no_reaction()
            },
            PageMessages::UpdateStatusCheck(app_running, beta_running, util_running) => {
                match self {
                    Step::Status { app, beta, util } => {
                        *app = !app_running;
                        *beta = !beta_running;
                        *util = !util_running;
                    },
                    _ => {},
                }
                no_reaction()
            },
            PageMessages::UpdateDeviceList(list) => {
                match self {
                    Step::LocateGoXLR { devices, .. } => {
                        *devices = Some(list);
                    },
                    _ => {},
                }
                no_reaction()
            },
            PageMessages::SelectDevice(index) => {
                match self {
                    Step::LocateGoXLR { devices, selected } => {
                        *selected = Some(index);
                        match devices {
                            Some(list) => {
                                if index < list.len() {
                                    assert(device_views(list@)[index as int] == list@[index as int]@);
                                    one_message(
                                        Message::StepsMessage(
                                            StepMessages::SetDevice(list[index].duplicate()),
                                        ),
                                    )
                                } else {
                                    no_reaction()
                                }
                            },
                            None => no_reaction(),
                        }
                    },
                    _ => no_reaction(),
                }
            },
            PageMessages::SelectFirmwareOption(method) => {
                match self {
                    Step::UpdateMethod { selected } => {
                        *selected = Some(method);
                        one_message(Message::StepsMessage(StepMessages::SetUpdateType(method)))
                    },
                    _ => no_reaction(),
                }
            },
            PageMessages::DownloadFirmwarePercent(percent) => {
                match self {
                    Step::SelectFile { progress, .. } => {
                        *progress = percent;
                    },
                    _ => {},
                }
                no_reaction()
            },
            PageMessages::SelectFirmware => {
                match self {
                    Step::SelectFile { .. } => {
                        let mut reaction = no_reaction();
                        reaction.task = Some(Task::PickFile);
                        reaction
                    },
                    _ => no_reaction(),
                }
            },
            PageMessages::SetAcceptDowngrade(value) => {
                match self {
                    Step::SelectFile { downgrade, .. } => {
                        *downgrade = value;
                    },
                    _ => {},
                }
                no_reaction()
            },
            PageMessages::SetFirmwareValid(value) => {
                match self {
                    Step::SelectFile { file_valid, .. } => {
                        *file_valid = value;
                    },
                    _ => {},
                }
                no_reaction()
            },
            PageMessages::UpdateFirmwareStage(value) => {
                match self {
                    Step::RunUpdate { stage, .. } => {
                        *stage = value;
                    },
                    _ => {},
                }
                no_reaction()
            },
            PageMessages::UpdateFirmwarePercent(value) => {
                match self {
                    Step::RunUpdate { percentage, .. } => {
                        *percentage = value;
                    },
                    _ => {},
                }
                no_reaction()
            },
            PageMessages::UpdateFirmwareMessage(value) => {
                match self {
                    Step::RunUpdate { message, .. } => {
                        *message = Some(value);
                    },
                    _ => {},
                }
                no_reaction()
            },
            PageMessages::UpdateFirmwareComplete(value) => {
                match self {
                    Step::RunUpdate { complete, .. } => {
                        *complete = value;
                    },
                    _ => {},
                }
                no_reaction()
            },
            PageMessages::UpdateFirmwareIsError(value) => {
                match self {
                    Step::RunUpdate { is_error, .. } => {
                        *is_error = value;
                    },
                    _ => {},
                }
                no_reaction()
            },
            PageMessages::NoneBool(_) => no_reaction(),
        }
    }
}

/// What a firmware file was found to hold, where it could be read and is
/// an image.
pub open spec fn found_in(contents: Option<Seq<u8>>) -> Option<FirmwareInfo> {
    match contents {
        Some(bytes) => match parsed(bytes) {
            Ok(info) => Some(info),
            Err(_) => None,
        },
        None => None,
    }
}

/// The details of the file at `path` whose header says `found`.
pub open spec fn details_of(path: Seq<char>, found: Option<FirmwareInfo>) -> Option<
    FirmwareDetailsView,
> {
    match found {
        Some(info) => Some(
            FirmwareDetailsView { path, device_type: info.device, version: info.version },
        ),
        None => None,
    }
}

/// A page after a message for the wizard as a whole. The device that was
/// chosen goes to the pages that select the file and run the update, the
/// way to update and the file to the page that selects the file, the
/// firmware to the page that runs the update. `found` is what the file of a
/// `SelectFile` message holds.
pub open spec fn directed(
    step: StepView,
    msg: StepMessagesView,
    found: Option<FirmwareInfo>,
) -> StepView {
    match (msg, step) {
        (
            StepMessagesView::SetDevice(chosen),
            StepView::SelectFile { file_valid, fetch_method, progress, file, details, downgrade, .. },
        ) => StepView::SelectFile {
            file_valid,
            device: Some(chosen),
            fetch_method,
            progress,
            file,
            details,
            downgrade,
        },
        (
            StepMessagesView::SetDevice(chosen),
            StepView::RunUpdate { firmware, stage, percentage, message, complete, is_error, .. },
        ) => StepView::RunUpdate {
            device: Some(chosen),
            firmware,
            stage,
            percentage,
            message,
            complete,
            is_error,
        },
        (
            StepMessagesView::SetUpdateType(method),
            StepView::SelectFile { file_valid, device, progress, file, details, downgrade, .. },
        ) => StepView::SelectFile {
            file_valid,
            device,
            fetch_method: Some(method),
            progress,
            file,
            details,
            downgrade,
        },
        (
            StepMessagesView::SelectFile(Some(path)),
            StepView::SelectFile { file_valid, device, fetch_method, progress, .. },
        ) => StepView::SelectFile {
            file_valid,
            device,
            fetch_method,
            progress,
            file: Some(path),
            details: details_of(path, found),
            downgrade: false,
        },
        (
            StepMessagesView::SetFirmware(details),
            StepView::RunUpdate { device, stage, percentage, message, complete, is_error, .. },
        ) => StepView::RunUpdate {
            device,
            firmware: Some(details),
            stage,
            percentage,
            message,
            complete,
            is_error,
        },
        (
            StepMessagesView::ClearFirmware(),
            StepView::RunUpdate { device, stage, percentage, message, complete, is_error, .. },
        ) => StepView::RunUpdate {
            device,
            firmware: None,
            stage,
            percentage,
            message,
            complete,
            is_error,
        },
        _ => step,
    }
}

impl Step {
    /// Takes a message for the wizard as a whole, as far as it concerns
    /// this page. `found` is what the file of a `SelectFile` message holds.
    pub fn direct(&mut self, msg: &StepMessages, found: Option<FirmwareInfo>)
        ensures
            final(self)@ == directed(old(self)@, msg@, found),
    {
        match msg {
            StepMessages::SetDevice(chosen) => {
                match self {
                    Step::SelectFile { device, .. } => {
                        *device = Some(chosen.duplicate());
                    },
                    Step::RunUpdate { device, .. } => {
                        *device = Some(chosen.duplicate());
                    },
                    _ => {},
                }
            },
            StepMessages::SetUpdateType(method) => {
                match self {
                    Step::SelectFile { fetch_method, .. } => {
                        *fetch_method = Some(*method);
                    },
                    _ => {},
                }
            },
            StepMessages::SelectFile(selected) => {
                match selected {
                    Some(path) => {
                        match self {
                            Step::SelectFile { file, downgrade, details, .. } => {
                                *file = Some(path.clone());
                                *downgrade = false;
                                *details = match found {
                                    Some(info) => Some(
                                        FirmwareDetails {
                                            path: path.clone(),
                                            device_type: info.device,
                                            version: info.version,
                                        },
                                    ),
                                    None => None,
                                };
                            },
                            _ => {},
                        }
                    },
                    None => {},
                }
            },
            StepMessages::SetFirmware(details) => {
                match self {
                    Step::RunUpdate { firmware, .. } => {
                        *firmware = Some(details.duplicate());
                    },
                    _ => {},
                }
            },
            StepMessages::ClearFirmware() => {
                match self {
                    Step::RunUpdate { firmware, .. } => {
                        *firmware = None;
                    },
                    _ => {},
                }
            },
        }
    }
}

/// The views of the pages, in order.
pub open spec fn step_views(steps: Seq<Step>) -> Seq<StepView> {
    steps.map_values(|s: Step| s@)
}

/// The pages of a wizard that has just been opened.
pub open spec fn first_pages() -> Seq<StepView> {
    seq![
        StepView::Welcome,
        StepView::LicenseOne { agreed: false },
        StepView::LicenseTwo { agreed: false },
        StepView::Status { app: false, beta: false, util: false },
        StepView::LocateGoXLR { devices: None, selected: None },
        StepView::UpdateMethod { selected: None },
        StepView::SelectFile {
            file_valid: false,
            device: None,
            fetch_method: None,
            progress: 0,
            file: None,
            details: None,
            downgrade: false,
        },
        StepView::RunUpdate {
            device: None,
            firmware: None,
            stage: "Starting"@,
            percentage: 0,
            message: None,
            complete: false,
            is_error: false,
        },
        StepView::Finish,
    ]
}

/// The wizard: its pages, and the one that is on screen.
pub struct Steps {
    steps: Vec<Step>,
    current: usize,
}

impl Steps {
    /// The pages, in order.
    pub closed spec fn pages(&self) -> Seq<StepView> {
        step_views(self.steps@)
    }

    /// The place of the page that is on screen.
    pub closed spec fn position(&self) -> int {
        self.current as int
    }

    #[verifier::type_invariant]
    spec fn in_range(self) -> bool {
        self.current < self.steps@.len()
    }

    /// The page on screen is one of the pages. This holds of every wizard.
    pub open spec fn well_formed(&self) -> bool {
        0 <= self.position() < self.pages().len()
    }

    /// Whether the user may go on to the next page: there is one, and the
    /// page on screen lets them.
    pub open spec fn may_advance(&self) -> bool {
        self.position() + 1 < self.pages().len() && may_continue(self.pages()[self.position()])
    }

    /// A wizard on its first page.
    pub fn new() -> (wizard: Steps)
        ensures
            wizard.pages() == first_pages(),
            wizard.position() == 0,
            wizard.well_formed(),
    {
        let mut steps: Vec<Step> = Vec::new();
        steps.push(Step::Welcome);
        steps.push(Step::LicenseOne { agreed: false });
        steps.push(Step::LicenseTwo { agreed: false });
        steps.push(Step::Status { app: false, beta: false, util: false });
        steps.push(Step::LocateGoXLR { devices: None, selected: None });
        steps.push(Step::UpdateMethod { selected: None });
        steps.push(
            Step::SelectFile {
                file_valid: false,
                device: None,
                fetch_method: None,
                progress: 0,
                file: None,
                details: None,
                downgrade: false,
            },
        );
        steps.push(
            Step::RunUpdate {
                device: None,
                firmware: None,
                stage: "Starting".to_owned(),
                percentage: 0,
                message: None,
                complete: false,
                is_error: false,
            },
        );
        steps.push(Step::Finish);
        assert(step_views(steps@) =~= first_pages());
        Steps { steps, current: 0 }
    }

    /// Takes a message for the wizard as a whole: every page that it
    /// concerns takes it. `contents` is what the file that a `SelectFile`
    /// message names holds, where it could be read.
    pub fn update_steps(&mut self, msg: StepMessages, contents: Option<&[u8]>)
        ensures
            final(self).position() == old(self).position(),
            final(self).pages().len() == old(self).pages().len(),
            old(self).well_formed(),
            final(self).well_formed(),
            forall|i: int|
                0 <= i < old(self).pages().len() ==> #[trigger] final(self).pages()[i] == directed(
                    old(self).pages()[i],
                    msg@,
                    found_in(
                        match contents {
                            Some(bytes) => Some(bytes@),
                            None => None,
                        },
                    ),
                ),
    {
        let found = match contents {
            Some(bytes) => match check_firmware(bytes) {
                Ok(info) => Some(info),
                Err(_) => None,
            },
            None => None,
        };
        proof {
            use_type_invariant(&*self);
        }
        let ghost before = self.steps@;
        let mut at: usize = 0;
        while at < self.steps.len()
            invariant
                at <= self.steps@.len(),
                self.steps@.len() == before.len(),
                self.current == old(self).current,
                self.current < before.len(),
                forall|i: int| 0 <= i < at ==> #[trigger] self.steps@[i]@ == directed(
                    before[i]@,
                    msg@,
                    found,
                ),
                forall|i: int| at <= i < before.len() ==> #[trigger] self.steps@[i] == before[i],
            decreases self.steps@.len() - at,
        {
            let step = &mut self.steps[at];
            step.direct(&msg, found);
            at = at + 1;
        }
    }

    /// Takes a message for the page on screen.
    pub fn update(&mut self, msg: PageMessages) -> (reaction: Reaction)
        ensures
            old(self).well_formed(),
            final(self).well_formed(),
            final(self).position() == old(self).position(),
            final(self).pages() == old(self).pages().update(
                old(self).position(),
                page_updated(old(self).pages()[old(self).position()], msg@),
            ),
            message_views(reaction.messages@) == page_sends(
                old(self).pages()[old(self).position()],
                msg@,
            ),
            task_view(reaction.task) == page_asks(old(self).pages()[old(self).position()], msg@),
    {
        proof {
            use_type_invariant(&*self);
        }
        let at = self.current;
        let ghost before = self.steps@;
        let step = &mut self.steps[at];
        let reaction = step.update(msg);
        assert(step_views(self.steps@) =~= step_views(before).update(
            at as int,
            page_updated(before[at as int]@, msg@),
        ));
        reaction
    }

    /// Whether the user may go on to the next page.
    pub fn can_continue(&self) -> (allowed: bool)
        ensures
            self.well_formed(),
            allowed == self.may_advance(),
    {
        proof {
            use_type_invariant(self);
        }
        assert(self.pages().len() == self.steps@.len());
        let count = self.steps.len();
        self.current + 1 < count && self.steps[self.current].can_continue()
    }

    /// Goes on to the next page, if the user may, and says which work that
    /// page asks for. Otherwise nothing changes.
    pub fn advance(&mut self) -> (task: Option<Task>)
        ensures
            old(self).well_formed(),
            final(self).well_formed(),
            final(self).pages() == old(self).pages(),
            old(self).may_advance() ==> final(self).position() == old(self).position() + 1
                && task_view(task) == task_on_display(final(self).pages()[final(self).position()]),
            !old(self).may_advance() ==> final(self).position() == old(self).position()
                && task is None,
    {
        proof {
            use_type_invariant(&*self);
        }
        assert(self.pages().len() == self.steps@.len());
        let count = self.steps.len();
        if self.can_continue() {
            assert(self.current + 1 < count);
            self.current = self.current + 1;
            self.steps[self.current].pre_display()
        } else {
            None
        }
    }

    /// The page that is on screen.
    pub fn current_step(&self) -> (step: &Step)
        ensures
            self.well_formed(),
            step@ == self.pages()[self.position()],
    {
        proof {
            use_type_invariant(self);
        }
        assert(self.pages().len() == self.steps@.len());
        &self.steps[self.current]
    }

    /// The place of the page that is on screen, counted from zero.
    pub fn current_index(&self) -> (index: usize)
        ensures
            index as int == self.position(),
            self.well_formed(),
    {
        proof {
            use_type_invariant(self);
        }
        assert(self.pages().len() == self.steps@.len());
        self.current
    }
}

} // verus!
