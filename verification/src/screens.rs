//! What the pages of the wizard show, in words, and what showing them sets
//! off. Above all: whether a firmware file may be installed on the device
//! that was chosen.

use crate::device::{Device, DeviceType, DeviceView};
use crate::messages::{
    message_views, FirmwareDetails, FirmwareDetailsView, Message, MessageView, PageMessages,
    PageMessagesView, StepMessages, StepMessagesView,
};
use crate::version::{classify_update, update_kind, version_text, UpdateKind};
use vstd::prelude::*;
use vstd::string::*;

verus! {

/// The views of some lines of text, in order.
pub open spec fn line_views(lines: Seq<String>) -> Seq<Seq<char>> {
    lines.map_values(|line: String| line@)
}

fn push_line(lines: &mut Vec<String>, line: String)
    ensures
        line_views(final(lines)@) == line_views(old(lines)@).push(line@),
{
    let ghost before = lines@;
    lines.push(line);
    assert(line_views(lines@) =~= line_views(before).push(line@));
}

fn no_lines() -> (lines: Vec<String>)
    ensures
        line_views(lines@) == Seq::<Seq<char>>::empty(),
{
    let lines: Vec<String> = Vec::new();
    assert(line_views(lines@) =~= Seq::<Seq<char>>::empty());
    lines
}

fn push_message(messages: &mut Vec<Message>, message: Message)
    ensures
        message_views(final(messages)@) == message_views(old(messages)@).push(message@),
{
    let ghost before = messages@;
    messages.push(message);
    assert(message_views(messages@) =~= message_views(before).push(message@));
}

fn no_messages() -> (messages: Vec<Message>)
    ensures
        message_views(messages@) == Seq::<MessageView>::empty(),
{
    let messages: Vec<Message> = Vec::new();
    assert(message_views(messages@) =~= Seq::<MessageView>::empty());
    messages
}

/// What the status page says. Each flag tells whether that program is
/// closed; the first that is still open is named.
pub open spec fn status_text(app: bool, beta: bool, util: bool) -> Seq<char> {
    if !app {
        "Please close the GoXLR App before continuing"@
    } else if !beta {
        "Please close the GoXLR Beta App before continuing"@
    } else if !util {
        "Please close the GoXLR utiltiy before continuing"@
    } else {
        "Good to go, click 'Next' to Continue!"@
    }
}

/// What showing the status page sends: a request to go on, and a second
/// one once everything is closed.
pub open spec fn status_messages(app: bool, beta: bool, util: bool) -> Seq<MessageView> {
    if app && beta && util {
        seq![MessageView::NextPressed, MessageView::NextPressed]
    } else {
        seq![MessageView::NextPressed]
    }
}

/// A page's words, with what showing them sends.
pub struct Screen {
    /// The lines to show, in order.
    pub lines: Vec<String>,
    /// The messages to send, in order.
    pub messages: Vec<Message>,
}

/// The status page: whether the programs that would hold the device are
/// closed.
pub fn status_screen(app: bool, beta: bool, util: bool) -> (screen: Screen)
    ensures
        line_views(screen.lines@) == seq![status_text(app, beta, util)],
        message_views(screen.messages@) == status_messages(app, beta, util),
{
    let mut messages = no_messages();
    push_message(&mut messages, Message::NextPressed);
    let text = if !app {
        "Please close the GoXLR App before continuing"
    } else if !beta {
        "Please close the GoXLR Beta App before continuing"
    } else if !util {
        "Please close the GoXLR utiltiy before continuing"
    } else {
        push_message(&mut messages, Message::NextPressed);
        "Good to go, click 'Next' to Continue!"
    };
    let mut lines = no_lines();
    push_line(&mut lines, text.to_owned());
    assert(line_views(lines@) =~= seq![status_text(app, beta, util)]);
    assert(message_views(messages@) =~= status_messages(app, beta, util));
    Screen { lines, messages }
}

/// The name of a model as it is shown in the device list.
pub open spec fn model_name(device_type: DeviceType) -> Seq<char> {
    match device_type {
        DeviceType::Full => "Full"@,
        DeviceType::Mini => "Mini"@,
        DeviceType::Unknown => "Unknown"@,
    }
}

/// The line that stands for a device in the device list.
pub open spec fn device_label(device: DeviceView) -> Seq<char> {
    "["@ + device.device_serial + "] GoXLR "@ + model_name(device.device_type)
}

/// What the device list shows.
#[derive(Clone, Debug, PartialEq, Eq)]
pub enum DeviceChoice {
    /// The scan has not come back, or found the one device that is now
    /// being chosen.
    Wait,
    /// The scan found nothing.
    Nothing,
    /// The devices to choose from, each by its label.
    Choose(Vec<String>),
}

/// What a `DeviceChoice` holds, as plain values.
pub ghost enum DeviceChoiceView {
    Wait,
    Nothing,
    Choose(Seq<Seq<char>>),
}

impl View for DeviceChoice {
    type V = DeviceChoiceView;

    open spec fn view(&self) -> DeviceChoiceView {
        match *self {
            DeviceChoice::Wait => DeviceChoiceView::Wait,
            DeviceChoice::Nothing => DeviceChoiceView::Nothing,
            DeviceChoice::Choose(labels) => DeviceChoiceView::Choose(line_views(labels@)),
        }
    }
}

/// What the device list shows for what a scan found.
pub open spec fn choice_for(list: Option<Seq<DeviceView>>) -> DeviceChoiceView {
    match list {
        None => DeviceChoiceView::Wait,
        Some(devices) => if devices.len() == 0 {
            DeviceChoiceView::Nothing
        } else if devices.len() == 1 {
            DeviceChoiceView::Wait
        } else {
            DeviceChoiceView::Choose(devices.map_values(|d: DeviceView| device_label(d)))
        },
    }
}

/// What showing the device list sends: a single device is chosen at once,
/// and the wizard goes on.
pub open spec fn choice_messages(list: Option<Seq<DeviceView>>) -> Seq<MessageView> {
    match list {
        Some(devices) => if devices.len() == 1 {
            seq![
                MessageView::PageMessage(PageMessagesView::SelectDevice(0)),
                MessageView::NextPressed,
            ]
        } else {
            Seq::empty()
        },
        None => Seq::empty(),
    }
}

/// The words that the device list shows in place of a list.
pub open spec fn choice_text(choice: DeviceChoiceView) -> Seq<char> {
    match choice {
        DeviceChoiceView::Wait => "Please Wait.."@,
        DeviceChoiceView::Nothing => "No GoXLRs Found, please attach one and restart."@,
        DeviceChoiceView::Choose(_) => Seq::empty(),
    }
}

impl DeviceChoice {
    /// The words to show in place of a list, where there is none.
    pub fn text(&self) -> (text: &'static str)
        ensures
            text@ == choice_text(self@),
    {
        proof {
            reveal_strlit("");
        }
        match self {
            DeviceChoice::Wait => "Please Wait..",
            DeviceChoice::Nothing => "No GoXLRs Found, please attach one and restart.",
            DeviceChoice::Choose(_) => {
                assert(""@ =~= Seq::<char>::empty());
                ""
            },
        }
    }
}

fn label_of(device: &Device) -> (label: String)
    ensures
        label@ == device_label(device@),
{
    let mut label = String::from_str("[");
    label.append(device.device_serial.as_str());
    label.append("] GoXLR ");
    label.append(
        match device.device_type {
            DeviceType::Full => "Full",
            DeviceType::Mini => "Mini",
            DeviceType::Unknown => "Unknown",
        },
    );
    label
}

/// The views of the devices of a list that may be missing.
pub open spec fn list_view(list: Option<&Vec<Device>>) -> Option<Seq<DeviceView>> {
    match list {
        Some(devices) => Some(devices@.map_values(|d: Device| d@)),
        None => None,
    }
}

/// The device list: what to show for what a scan found, and what showing
/// it sends.
pub fn device_screen(list: Option<&Vec<Device>>) -> (screen: (DeviceChoice, Vec<Message>))
    ensures
        screen.0@ == choice_for(list_view(list)),
        message_views(screen.1@) == choice_messages(list_view(list)),
{
    let devices = match list {
        Some(devices) => devices,
        None => {
            return (DeviceChoice::Wait, no_messages());
        },
    };
    let ghost views = devices@.map_values(|d: Device| d@);
    if devices.len() == 0 {
        (DeviceChoice::Nothing, no_messages())
    } else if devices.len() == 1 {
        let mut messages = no_messages();
        push_message(&mut messages, Message::PageMessage(PageMessages::SelectDevice(0)));
        push_message(&mut messages, Message::NextPressed);
        assert(message_views(messages@) =~= choice_messages(Some(views)));
        (DeviceChoice::Wait, messages)
    } else {
        let mut labels = no_lines();
        let mut at: usize = 0;
        while at < devices.len()
            invariant
                at <= devices@.len(),
                views == devices@.map_values(|d: Device| d@),
                line_views(labels@) == views.take(at as int).map_values(
                    |d: DeviceView| device_label(d),
                ),
            decreases devices@.len() - at,
        {
            let ghost before = line_views(labels@);
            push_line(&mut labels, label_of(&devices[at]));
            assert(line_views(labels@) =~= views.take(at as int + 1).map_values(
                |d: DeviceView| device_label(d),
            )) by {
                assert(views[at as int] == devices@[at as int]@);
            }
            at = at + 1;
        }
        assert(views.take(at as int) =~= views);
        (DeviceChoice::Choose(labels), no_messages())
    }
}

/// Whether a firmware file may be installed, and what kind of update that
/// would be.
#[derive(Clone, Copy, Debug, PartialEq, Eq, Structural)]
pub struct Gate {
    /// The file is an image for the device that was chosen.
    pub valid: bool,
    /// The device runs this version already, or a later one.
    pub is_downgrade: bool,
    /// The device runs exactly this version.
    pub is_reinstall: bool,
    /// The update may start: the file is valid, and going back was
    /// confirmed where it is a step back.
    pub ready: bool,
}

/// The decision for a file and a device. `details` is what the file was
/// found to hold, `device` the device that was chosen, `accepted` whether
/// the user has confirmed a step back.
pub open spec fn gate_for(
    details: Option<FirmwareDetailsView>,
    device: Option<DeviceView>,
    accepted: bool,
) -> Gate {
    match details {
        None => Gate { valid: false, is_downgrade: false, is_reinstall: false, ready: false },
        Some(firmware) => match device {
            None => Gate { valid: true, is_downgrade: false, is_reinstall: false, ready: true },
            Some(target) => if target.device_type != firmware.device_type {
                Gate { valid: false, is_downgrade: false, is_reinstall: false, ready: false }
            } else {
                let kind = update_kind(target.version, firmware.version);
                Gate {
                    valid: true,
                    is_downgrade: kind != UpdateKind::Upgrade,
                    is_reinstall: kind == UpdateKind::Reinstall,
                    ready: kind == UpdateKind::Upgrade || accepted,
                }
            },
        },
    }
}

/// The model that an image is for, in the words of the mismatch notice.
pub open spec fn expected_model(device_type: DeviceType) -> Seq<char> {
    match device_type {
        DeviceType::Full => "Full Sized GoXLR"@,
        DeviceType::Mini => "GoXLR Mini"@,
        DeviceType::Unknown => "Hi! You broke something badly! Contact Frosty."@,
    }
}

/// The lines that the file page shows under the file's name.
pub open spec fn gate_lines(
    details: Option<FirmwareDetailsView>,
    device: Option<DeviceView>,
    file_chosen: bool,
) -> Seq<Seq<char>> {
    match details {
        None => if file_chosen {
            seq!["Selected file is not a GoXLR Firmware"@]
        } else {
            Seq::empty()
        },
        Some(firmware) => match device {
            None => Seq::empty(),
            Some(target) => if target.device_type != firmware.device_type {
                seq![
                    "This firmware is only compatible with the "@ + expected_model(
                        firmware.device_type,
                    ),
                ]
            } else {
                seq![
                    "Selected Firmware: "@ + version_text(firmware.version),
                    "Current Firmware: "@ + version_text(target.version),
                ]
            },
        },
    }
}

/// The label of the box that confirms a step back, where one is needed.
pub open spec fn gate_confirmation(gate: Gate) -> Option<Seq<char>> {
    if gate.valid && gate.is_downgrade {
        if gate.is_reinstall {
            Some("Confirm Firmware Reinstall"@)
        } else {
            Some("Confirm Firmware Downgrade"@)
        }
    } else {
        None
    }
}

/// What showing the file page sends: whether the update may start, and
/// with it the firmware to install, or the order to forget it.
pub open spec fn gate_messages(gate: Gate, details: Option<FirmwareDetailsView>) -> Seq<
    MessageView,
> {
    let verdict = MessageView::PageMessage(PageMessagesView::SetFirmwareValid(gate.ready));
    if gate.ready {
        match details {
            Some(firmware) => seq![
                verdict,
                MessageView::StepsMessage(StepMessagesView::SetFirmware(firmware)),
            ],
            None => seq![verdict],
        }
    } else {
        seq![verdict, MessageView::StepsMessage(StepMessagesView::ClearFirmware())]
    }
}

/// What the file page comes to.
pub struct Assessment {
    pub gate: Gate,
    /// The lines to show under the file's name.
    pub lines: Vec<String>,
    /// The label of the box that confirms a step back, where one is needed.
    pub confirmation: Option<String>,
    /// The messages to send, in order.
    pub messages: Vec<Message>,
}

/// The view of a confirmation label that may be missing.
pub open spec fn label_view(label: Option<String>) -> Option<Seq<char>> {
    match label {
        Some(text) => Some(text@),
        None => None,
    }
}

/// The view of details that may be missing.
pub open spec fn chosen_details(details: Option<&FirmwareDetails>) -> Option<FirmwareDetailsView> {
    match details {
        Some(firmware) => Some(firmware@),
        None => None,
    }
}

/// The view of a device that may be missing.
pub open spec fn chosen_device(device: Option<&Device>) -> Option<DeviceView> {
    match device {
        Some(target) => Some(target@),
        None => None,
    }
}

fn decide(details: Option<&FirmwareDetails>, device: Option<&Device>, accepted: bool) -> (gate:
    Gate)
    ensures
        gate == gate_for(chosen_details(details), chosen_device(device), accepted),
{
    let firmware = match details {
        Some(firmware) => firmware,
        None => {
            return Gate { valid: false, is_downgrade: false, is_reinstall: false, ready: false };
        },
    };
    let target = match device {
        Some(target) => target,
        None => {
            return Gate { valid: true, is_downgrade: false, is_reinstall: false, ready: true };
        },
    };
    let same_model = match (target.device_type, firmware.device_type) {
        (DeviceType::Full, DeviceType::Full) => true,
        (DeviceType::Mini, DeviceType::Mini) => true,
        (DeviceType::Unknown, DeviceType::Unknown) => true,
        _ => false,
    };
    if !same_model {
        return Gate { valid: false, is_downgrade: false, is_reinstall: false, ready: false };
    }
    match classify_update(&target.version, firmware.version) {
        UpdateKind::Upgrade => Gate {
            valid: true,
            is_downgrade: false,
            is_reinstall: false,
            ready: true,
        },
        UpdateKind::Downgrade => Gate {
            valid: true,
            is_downgrade: true,
            is_reinstall: false,
            ready: accepted,
        },
        UpdateKind::Reinstall => Gate {
            valid: true,
            is_downgrade: true,
            is_reinstall: true,
            ready: accepted,
        },
    }
}

fn lines_for(details: Option<&FirmwareDetails>, device: Option<&Device>, file_chosen: bool) -> (lines:
    Vec<String>)
    ensures
        line_views(lines@) == gate_lines(
            chosen_details(details),
            chosen_device(device),
            file_chosen,
        ),
{
    let mut lines = no_lines();
    let firmware = match details {
        Some(firmware) => firmware,
        None => {
            if file_chosen {
                push_line(&mut lines, "Selected file is not a GoXLR Firmware".to_owned());
                assert(line_views(lines@) =~= seq!["Selected file is not a GoXLR Firmware"@]);
            }
            return lines;
        },
    };
    let target = match device {
        Some(target) => target,
        None => {
            return lines;
        },
    };
    let same_model = match (target.device_type, firmware.device_type) {
        (DeviceType::Full, DeviceType::Full) => true,
        (DeviceType::Mini, DeviceType::Mini) => true,
        (DeviceType::Unknown, DeviceType::Unknown) => true,
        _ => false,
    };
    if !same_model {
        let mut line = String::from_str("This firmware is only compatible with the ");
        line.append(
            match firmware.device_type {
                DeviceType::Full => "Full Sized GoXLR",
                DeviceType::Mini => "GoXLR Mini",
                DeviceType::Unknown => "Hi! You broke something badly! Contact Frosty.",
            },
        );
        push_line(&mut lines, line);
        assert(line_views(lines@) =~= gate_lines(
            chosen_details(details),
            chosen_device(device),
            file_chosen,
        ));
    } else {
        let mut selected = String::from_str("Selected Firmware: ");
        selected.append(firmware.version.to_text().as_str());
        let mut current = String::from_str("Current Firmware: ");
        current.append(target.version.to_text().as_str());
        push_line(&mut lines, selected);
        push_line(&mut lines, current);
        assert(line_views(lines@) =~= gate_lines(
            chosen_details(details),
            chosen_device(device),
            file_chosen,
        ));
    }
    lines
}

/// The file page: whether the firmware that was chosen may be installed on
/// the device that was chosen, what to show, and what to send.
///
/// A file that is no image, or an image for the other model, is not valid.
/// An image whose version the device has already reached is a step back,
/// or a reinstallation where the versions are the same; it may be installed
/// once the user has confirmed.
pub fn assess_selection(
    details: Option<&FirmwareDetails>,
    device: Option<&Device>,
    file_chosen: bool,
    accepted: bool,
) -> (assessment: Assessment)
    ensures
        assessment.gate == gate_for(chosen_details(details), chosen_device(device), accepted),
        line_views(assessment.lines@) == gate_lines(
            chosen_details(details),
            chosen_device(device),
            file_chosen,
        ),
        label_view(assessment.confirmation) == gate_confirmation(assessment.gate),
        message_views(assessment.messages@) == gate_messages(
            assessment.gate,
            chosen_details(details),
        ),
{
    let gate = decide(details, device, accepted);
    let lines = lines_for(details, device, file_chosen);
    let confirmation = if gate.valid && gate.is_downgrade {
        if gate.is_reinstall {
            Some("Confirm Firmware Reinstall".to_owned())
        } else {
            Some("Confirm Firmware Downgrade".to_owned())
        }
    } else {
        None
    };
    let mut messages = no_messages();
    push_message(&mut messages, Message::PageMessage(PageMessages::SetFirmwareValid(gate.ready)));
    if gate.ready {
        match details {
            Some(firmware) => {
                push_message(
                    &mut messages,
                    Message::StepsMessage(StepMessages::SetFirmware(firmware.duplicate())),
                );
            },
            None => {},
        }
    } else {
        push_message(&mut messages, Message::StepsMessage(StepMessages::ClearFirmware()));
    }
    assert(message_views(messages@) =~= gate_messages(gate, chosen_details(details)));
    Assessment { gate, lines, confirmation, messages }
}

/// What the update page says once the update has ended.
pub open spec fn closing_lines(complete: bool, is_error: bool) -> Seq<Seq<char>> {
    if !complete {
        Seq::empty()
    } else if is_error {
        seq![
            "An error occurred updating your GoXLR, it has been rebooted back into it's previous firmware."@,
            "You can now close this tool, and restart the GoXLR App of your choice!"@,
        ]
    } else {
        seq![
            "Your GoXLR was successfully updated and has been rebooted."@,
            "You can now close this tool, and restart the GoXLR App of your choice!"@,
        ]
    }
}

/// The lines under the progress bar of the update page: nothing while the
/// update runs, then how it ended.
pub fn closing_screen(complete: bool, is_error: bool) -> (lines: Vec<String>)
    ensures
        line_views(lines@) == closing_lines(complete, is_error),
{
    let mut lines = no_lines();
    if complete {
        if is_error {
            push_line(
                &mut lines,
                "An error occurred updating your GoXLR, it has been rebooted back into it's previous firmware.".to_owned(),
            );
        } else {
            push_line(
                &mut lines,
                "Your GoXLR was successfully updated and has been rebooted.".to_owned(),
            );
        }
        push_line(
            &mut lines,
            "You can now close this tool, and restart the GoXLR App of your choice!".to_owned(),
        );
        assert(line_views(lines@) =~= closing_lines(complete, is_error));
    }
    lines
}

/// A firmware that the device has reached needs the user's word: without
/// it the update is not ready, with it it is. A reinstallation is one such
/// case. A later firmware for the right model is ready as it is, and one
/// for the other model never is.
pub proof fn lemma_gate(firmware: FirmwareDetailsView, target: DeviceView, accepted: bool)
    ensures
        ({
            let gate = gate_for(Some(firmware), Some(target), accepted);
            &&& gate.valid == (target.device_type == firmware.device_type)
            &&& gate.is_reinstall ==> gate.is_downgrade
            &&& gate.is_downgrade ==> gate.valid
            &&& gate.ready == (gate.valid && (!gate.is_downgrade || accepted))
            &&& gate.valid ==> gate.is_downgrade == crate::version::newer_or_equal(
                target.version,
                firmware.version,
            )
            &&& gate.valid ==> gate.is_reinstall == (target.version == firmware.version)
        }),
{
}

} // verus!
