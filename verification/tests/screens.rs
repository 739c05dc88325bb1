use goxlr_updater::device::{
    device_list_message, Device, DeviceLocal, DeviceProbe, DeviceType,
};
use goxlr_updater::messages::{FirmwareDetails, Message, PageMessages, StepMessages};
use goxlr_updater::preflight::{process_name, status_report, Program};
use goxlr_updater::screens::{
    assess_selection, closing_screen, device_screen, status_screen, DeviceChoice, Gate,
};
use goxlr_updater::update::{setup_failure, SetupError};
use goxlr_updater::version::VersionNumber;

fn device(serial: &str, device_type: DeviceType, version: VersionNumber) -> Device {
    Device {
        device_type,
        device_serial: serial.to_string(),
        version,
        goxlr_device: DeviceLocal {
            bus_number: 1,
            address: 2,
            identifier: None,
        },
    }
}

fn details(device_type: DeviceType, version: VersionNumber) -> FirmwareDetails {
    FirmwareDetails {
        path: "/tmp/firmware.bin".to_string(),
        device_type,
        version,
    }
}

#[test]
fn a_later_firmware_is_ready_at_once() {
    let target = device("A", DeviceType::Mini, VersionNumber(1, 2, 0, 54));
    let firmware = details(DeviceType::Mini, VersionNumber(1, 3, 0, 1));
    let assessment = assess_selection(Some(&firmware), Some(&target), true, false);
    assert_eq!(
        assessment.gate,
        Gate { valid: true, is_downgrade: false, is_reinstall: false, ready: true }
    );
    assert_eq!(
        assessment.lines,
        vec!["Selected Firmware: 1.3.0.1", "Current Firmware: 1.2.0.54"]
    );
    assert_eq!(assessment.confirmation, None);
    assert_eq!(
        assessment.messages,
        vec![
            Message::PageMessage(PageMessages::SetFirmwareValid(true)),
            Message::StepsMessage(StepMessages::SetFirmware(firmware.clone())),
        ]
    );
}

#[test]
fn an_earlier_firmware_needs_confirmation() {
    let target = device("A", DeviceType::Mini, VersionNumber(1, 2, 0, 54));
    let firmware = details(DeviceType::Mini, VersionNumber(1, 2, 0, 53));
    let held = assess_selection(Some(&firmware), Some(&target), true, false);
    assert_eq!(
        held.gate,
        Gate { valid: true, is_downgrade: true, is_reinstall: false, ready: false }
    );
    assert_eq!(held.confirmation, Some("Confirm Firmware Downgrade".to_string()));
    assert_eq!(
        held.messages,
        vec![
            Message::PageMessage(PageMessages::SetFirmwareValid(false)),
            Message::StepsMessage(StepMessages::ClearFirmware()),
        ]
    );
    let confirmed = assess_selection(Some(&firmware), Some(&target), true, true);
    assert!(confirmed.gate.ready);
    assert_eq!(
        confirmed.messages,
        vec![
            Message::PageMessage(PageMessages::SetFirmwareValid(true)),
            Message::StepsMessage(StepMessages::SetFirmware(firmware.clone())),
        ]
    );
}

#[test]
fn the_same_firmware_is_a_reinstall() {
    let target = device("A", DeviceType::Full, VersionNumber(1, 2, 3, 4));
    let firmware = details(DeviceType::Full, VersionNumber(1, 2, 3, 4));
    let assessment = assess_selection(Some(&firmware), Some(&target), true, false);
    assert_eq!(
        assessment.gate,
        Gate { valid: true, is_downgrade: true, is_reinstall: true, ready: false }
    );
    assert_eq!(
        assessment.confirmation,
        Some("Confirm Firmware Reinstall".to_string())
    );
    assert!(assess_selection(Some(&firmware), Some(&target), true, true).gate.ready);
}

#[test]
fn firmware_for_the_other_model_is_refused() {
    let target = device("A", DeviceType::Full, VersionNumber(1, 2, 3, 4));
    let firmware = details(DeviceType::Mini, VersionNumber(9, 0, 0, 0));
    for accepted in [false, true] {
        let assessment = assess_selection(Some(&firmware), Some(&target), true, accepted);
        assert_eq!(
            assessment.gate,
            Gate { valid: false, is_downgrade: false, is_reinstall: false, ready: false }
        );
        assert_eq!(
            assessment.lines,
            vec!["This firmware is only compatible with the GoXLR Mini"]
        );
        assert_eq!(assessment.confirmation, None);
    }
    let target = device("A", DeviceType::Mini, VersionNumber(1, 2, 3, 4));
    let firmware = details(DeviceType::Full, VersionNumber(9, 0, 0, 0));
    assert_eq!(
        assess_selection(Some(&firmware), Some(&target), true, false).lines,
        vec!["This firmware is only compatible with the Full Sized GoXLR"]
    );
}

#[test]
fn a_file_that_is_no_firmware_is_refused() {
    let target = device("A", DeviceType::Full, VersionNumber(1, 2, 3, 4));
    let assessment = assess_selection(None, Some(&target), true, true);
    assert!(!assessment.gate.valid);
    assert!(!assessment.gate.ready);
    assert_eq!(assessment.lines, vec!["Selected file is not a GoXLR Firmware"]);
    assert_eq!(
        assessment.messages,
        vec![
            Message::PageMessage(PageMessages::SetFirmwareValid(false)),
            Message::StepsMessage(StepMessages::ClearFirmware()),
        ]
    );
    let nothing = assess_selection(None, Some(&target), false, false);
    assert!(!nothing.gate.ready);
    assert!(nothing.lines.is_empty());
}

#[test]
fn status_names_the_first_program_that_is_open() {
    let screen = status_screen(false, false, false);
    assert_eq!(screen.lines, vec!["Please close the GoXLR App before continuing"]);
    assert_eq!(screen.messages, vec![Message::NextPressed]);
    assert_eq!(
        status_screen(true, false, false).lines,
        vec!["Please close the GoXLR Beta App before continuing"]
    );
    assert_eq!(
        status_screen(true, true, false).lines,
        vec!["Please close the GoXLR utiltiy before continuing"]
    );
    let done = status_screen(true, true, true);
    assert_eq!(done.lines, vec!["Good to go, click 'Next' to Continue!"]);
    assert_eq!(done.messages, vec![Message::NextPressed, Message::NextPressed]);
}

#[test]
fn a_single_device_is_chosen_at_once() {
    let one = vec![device("A", DeviceType::Full, VersionNumber(1, 0, 0, 0))];
    let (choice, messages) = device_screen(Some(&one));
    assert_eq!(choice, DeviceChoice::Wait);
    assert_eq!(choice.text(), "Please Wait..");
    assert_eq!(
        messages,
        vec![
            Message::PageMessage(PageMessages::SelectDevice(0)),
            Message::NextPressed,
        ]
    );
}

#[test]
fn several_devices_are_listed_by_serial_and_model() {
    let list = vec![
        device("S1", DeviceType::Full, VersionNumber(1, 0, 0, 0)),
        device("S2", DeviceType::Mini, VersionNumber(1, 0, 0, 0)),
        device("", DeviceType::Unknown, VersionNumber(1, 0, 0, 0)),
    ];
    let (choice, messages) = device_screen(Some(&list));
    assert_eq!(
        choice,
        DeviceChoice::Choose(vec![
            "[S1] GoXLR Full".to_string(),
            "[S2] GoXLR Mini".to_string(),
            "[] GoXLR Unknown".to_string(),
        ])
    );
    assert_eq!(choice.text(), "");
    assert!(messages.is_empty());
}

#[test]
fn no_devices_and_no_scan_are_told_apart() {
    let (choice, messages) = device_screen(Some(&vec![]));
    assert_eq!(choice, DeviceChoice::Nothing);
    assert_eq!(
        choice.text(),
        "No GoXLRs Found, please attach one and restart."
    );
    assert!(messages.is_empty());
    let (choice, messages) = device_screen(None);
    assert_eq!(choice, DeviceChoice::Wait);
    assert!(messages.is_empty());
}

#[test]
fn the_update_page_says_how_it_ended() {
    assert!(closing_screen(false, false).is_empty());
    assert!(closing_screen(false, true).is_empty());
    assert_eq!(
        closing_screen(true, false),
        vec![
            "Your GoXLR was successfully updated and has been rebooted.",
            "You can now close this tool, and restart the GoXLR App of your choice!",
        ]
    );
    assert_eq!(
        closing_screen(true, true),
        vec![
            "An error occurred updating your GoXLR, it has been rebooted back into it's previous firmware.",
            "You can now close this tool, and restart the GoXLR App of your choice!",
        ]
    );
}

#[test]
fn running_programs_are_reported() {
    let report = status_report(1, 0, 0, 2);
    assert_eq!(
        report.message,
        Message::PageMessage(PageMessages::UpdateStatusCheck(true, false, true))
    );
    assert!(!report.finished);
    let report = status_report(0, 3, 1, 0);
    assert_eq!(
        report.message,
        Message::PageMessage(PageMessages::UpdateStatusCheck(false, true, true))
    );
    assert!(!report.finished);
    let report = status_report(0, 0, 0, 0);
    assert_eq!(
        report.message,
        Message::PageMessage(PageMessages::UpdateStatusCheck(false, false, false))
    );
    assert!(report.finished);
}

#[test]
fn programs_are_looked_for_by_exact_name() {
    assert_eq!(process_name(Program::App), "GoXLR App.exe");
    assert_eq!(process_name(Program::Beta), "GoXLR Beta App.exe");
    assert_eq!(process_name(Program::Utility), "goxlr-daemon.exe");
    assert_eq!(process_name(Program::UtilityLinux), "goxlr-daemon");
}

#[test]
fn setup_failures_have_their_words() {
    let texts = [
        (SetupError::NoDevice, "Error: Unable to retrieve GoXLR from Device"),
        (SetupError::NoFirmware, "Error: Unable to Load Firmware from Disk"),
        (
            SetupError::UpdateMode("busy".to_string()),
            "Error: Failed to put device in Update Mode: busy",
        ),
    ];
    for (error, text) in texts {
        assert_eq!(
            setup_failure(&error),
            vec![
                PageMessages::UpdateFirmwareStage("Preparing...".to_string()),
                PageMessages::UpdateFirmwarePercent(0),
                PageMessages::UpdateFirmwareMessage(text.to_string()),
                PageMessages::UpdateFirmwareIsError(true),
                PageMessages::UpdateFirmwareComplete(true),
            ]
        );
    }
}

#[test]
fn a_scan_becomes_a_device_list_message() {
    let here = DeviceLocal { bus_number: 3, address: 9, identifier: Some("x".to_string()) };
    let message = device_list_message(vec![
        (
            here.clone(),
            DeviceProbe {
                kind: Some(DeviceType::Full),
                serial: Some("S9".to_string()),
                version: Some(VersionNumber(1, 4, 2, 107)),
            },
        ),
        (
            DeviceLocal { bus_number: 3, address: 10, identifier: None },
            DeviceProbe { kind: Some(DeviceType::Mini), serial: None, version: None },
        ),
    ]);
    assert_eq!(
        message,
        Message::PageMessage(PageMessages::UpdateDeviceList(vec![Device {
            device_type: DeviceType::Full,
            device_serial: "S9".to_string(),
            version: VersionNumber(1, 4, 2, 107),
            goxlr_device: here,
        }]))
    );
}
