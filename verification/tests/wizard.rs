use goxlr_updater::device::{Device, DeviceLocal, DeviceType};
use goxlr_updater::messages::{
    FirmwareDetails, Message, PageMessages, SelectUpdateOption, StepMessages,
};
use goxlr_updater::version::VersionNumber;
use goxlr_updater::wizard::{Step, Steps, Task};

fn device(serial: &str, device_type: DeviceType, version: VersionNumber) -> Device {
    Device {
        device_type,
        device_serial: serial.to_string(),
        version,
        goxlr_device: DeviceLocal {
            bus_number: 1,
            address: 2,
            identifier: None,
        },
    }
}

fn image(tag: &[u8], packed: u32, build: u32) -> Vec<u8> {
    let mut bytes = vec![0u8; 128];
    bytes[..tag.len()].copy_from_slice(tag);
    bytes[24..28].copy_from_slice(&packed.to_le_bytes());
    bytes[28..32].copy_from_slice(&build.to_le_bytes());
    bytes
}

#[test]
fn a_new_wizard_stands_on_the_welcome_page() {
    let wizard = Steps::new();
    assert_eq!(wizard.current_index(), 0);
    assert_eq!(wizard.current_step(), &Step::Welcome);
    assert!(wizard.can_continue());
    assert_eq!(wizard.current_step().title(), "Welcome");
    assert_eq!(
        wizard.current_step().description(),
        "Welcome to the GoXLR Firmware Updater"
    );
}

#[test]
fn licenses_must_be_accepted() {
    let mut wizard = Steps::new();
    assert_eq!(wizard.advance(), None);
    assert_eq!(wizard.current_step(), &Step::LicenseOne { agreed: false });
    assert!(!wizard.can_continue());
    assert_eq!(wizard.advance(), None);
    assert_eq!(wizard.current_index(), 1);
    wizard.update(PageMessages::ToggleAcceptLicenseTwo(true));
    assert!(!wizard.can_continue());
    wizard.update(PageMessages::ToggleAcceptLicenseOne(true));
    assert!(wizard.can_continue());
    assert_eq!(wizard.advance(), None);
    assert_eq!(wizard.current_step(), &Step::LicenseTwo { agreed: false });
    wizard.update(PageMessages::ToggleAcceptLicenseTwo(true));
    assert_eq!(wizard.advance(), Some(Task::CheckStatus));
    assert_eq!(wizard.current_index(), 3);
}

fn wizard_at_status() -> Steps {
    let mut wizard = Steps::new();
    wizard.advance();
    wizard.update(PageMessages::ToggleAcceptLicenseOne(true));
    wizard.advance();
    wizard.update(PageMessages::ToggleAcceptLicenseTwo(true));
    wizard.advance();
    wizard
}

#[test]
fn status_waits_until_everything_is_closed() {
    let mut wizard = wizard_at_status();
    assert!(!wizard.can_continue());
    wizard.update(PageMessages::UpdateStatusCheck(false, true, false));
    assert_eq!(
        wizard.current_step(),
        &Step::Status { app: true, beta: false, util: true }
    );
    assert!(!wizard.can_continue());
    wizard.update(PageMessages::UpdateStatusCheck(false, false, false));
    assert!(wizard.can_continue());
    assert_eq!(wizard.advance(), Some(Task::FindDevices));
    assert_eq!(wizard.current_step().title(), "Locating GoXLRs");
}

fn wizard_at_devices(list: Vec<Device>) -> Steps {
    let mut wizard = wizard_at_status();
    wizard.update(PageMessages::UpdateStatusCheck(false, false, false));
    wizard.advance();
    wizard.update(PageMessages::UpdateDeviceList(list));
    wizard
}

#[test]
fn choosing_a_device_passes_it_on() {
    let first = device("A", DeviceType::Full, VersionNumber(1, 0, 0, 1));
    let second = device("B", DeviceType::Mini, VersionNumber(1, 2, 0, 54));
    let mut wizard = wizard_at_devices(vec![first.clone(), second.clone()]);
    assert!(!wizard.can_continue());
    let reaction = wizard.update(PageMessages::SelectDevice(1));
    assert_eq!(
        reaction.messages,
        vec![Message::StepsMessage(StepMessages::SetDevice(second.clone()))]
    );
    assert_eq!(reaction.task, None);
    assert_eq!(
        wizard.current_step(),
        &Step::LocateGoXLR {
            devices: Some(vec![first, second]),
            selected: Some(1),
        }
    );
    assert!(wizard.can_continue());
}

#[test]
fn choosing_a_device_that_is_not_listed_sends_nothing() {
    let first = device("A", DeviceType::Full, VersionNumber(1, 0, 0, 1));
    let mut wizard = wizard_at_devices(vec![first]);
    let reaction = wizard.update(PageMessages::SelectDevice(5));
    assert!(reaction.messages.is_empty());
}

#[test]
fn messages_for_other_pages_change_nothing() {
    let mut wizard = Steps::new();
    for msg in [
        PageMessages::ToggleAcceptLicenseOne(true),
        PageMessages::UpdateStatusCheck(false, false, false),
        PageMessages::SelectDevice(0),
        PageMessages::SelectFirmware,
        PageMessages::DownloadFirmwarePercent(50),
        PageMessages::UpdateFirmwareComplete(true),
        PageMessages::NoneBool(true),
    ] {
        let reaction = wizard.update(msg);
        assert!(reaction.messages.is_empty());
        assert_eq!(reaction.task, None);
        assert_eq!(wizard.current_step(), &Step::Welcome);
    }
}

#[test]
fn the_chosen_device_reaches_the_later_pages() {
    let chosen = device("B", DeviceType::Mini, VersionNumber(1, 2, 0, 54));
    let mut select = Step::SelectFile {
        file_valid: false,
        device: None,
        fetch_method: None,
        progress: 0,
        file: None,
        details: None,
        downgrade: false,
    };
    let msg = StepMessages::SetDevice(chosen.clone());
    select.direct(&msg, None);
    assert!(matches!(&select, Step::SelectFile { device: Some(d), .. } if d == &chosen));
    let mut welcome = Step::Welcome;
    welcome.direct(&msg, None);
    assert_eq!(welcome, Step::Welcome);
}

#[test]
fn a_chosen_file_is_read_and_the_confirmation_is_withdrawn() {
    let mut wizard = Steps::new();
    let mut select = Step::SelectFile {
        file_valid: true,
        device: None,
        fetch_method: Some(SelectUpdateOption::File),
        progress: 0,
        file: None,
        details: None,
        downgrade: true,
    };
    let bytes = image(b"GoXLR-Mini", 0x1234, 7);
    let info = goxlr_updater::firmware::check_firmware(&bytes).ok();
    select.direct(
        &StepMessages::SelectFile(Some("/tmp/mini.bin".to_string())),
        info,
    );
    assert_eq!(
        select,
        Step::SelectFile {
            file_valid: true,
            device: None,
            fetch_method: Some(SelectUpdateOption::File),
            progress: 0,
            file: Some("/tmp/mini.bin".to_string()),
            details: Some(FirmwareDetails {
                path: "/tmp/mini.bin".to_string(),
                device_type: DeviceType::Mini,
                version: VersionNumber(1, 2, 52, 7),
            }),
            downgrade: false,
        }
    );
    select.direct(&StepMessages::SelectFile(None), None);
    assert!(matches!(&select, Step::SelectFile { file: Some(_), details: Some(_), .. }));
    select.direct(
        &StepMessages::SelectFile(Some("/tmp/other.bin".to_string())),
        None,
    );
    assert!(matches!(&select, Step::SelectFile { file: Some(path), details: None, .. } if path == "/tmp/other.bin"));

    wizard.update_steps(
        StepMessages::SelectFile(Some("/tmp/mini.bin".to_string())),
        Some(&bytes),
    );
    wizard.update_steps(StepMessages::SetUpdateType(SelectUpdateOption::Download), None);
    assert_eq!(wizard.current_index(), 0);
    assert_eq!(wizard.current_step(), &Step::Welcome);
}

fn wizard_at_method() -> Steps {
    let chosen = device("B", DeviceType::Mini, VersionNumber(1, 2, 0, 54));
    let mut wizard = wizard_at_devices(vec![chosen]);
    let reaction = wizard.update(PageMessages::SelectDevice(0));
    for message in reaction.messages {
        if let Message::StepsMessage(msg) = message {
            wizard.update_steps(msg, None);
        }
    }
    assert_eq!(wizard.advance(), None);
    assert_eq!(wizard.current_step().title(), "Select Update Method");
    wizard
}

#[test]
fn choosing_to_download_starts_the_download() {
    let mut wizard = wizard_at_method();
    assert!(wizard.can_continue());
    let reaction = wizard.update(PageMessages::SelectFirmwareOption(SelectUpdateOption::Download));
    assert_eq!(
        reaction.messages,
        vec![Message::StepsMessage(StepMessages::SetUpdateType(
            SelectUpdateOption::Download
        ))]
    );
    wizard.update_steps(StepMessages::SetUpdateType(SelectUpdateOption::Download), None);
    assert_eq!(wizard.advance(), Some(Task::Download(DeviceType::Mini)));
    assert_eq!(wizard.current_step().title(), "Downloading Firmware");
    assert_eq!(
        wizard.current_step().description(),
        "Please wait while the firmware downloads from TC-Helicon's servers"
    );
    wizard.update(PageMessages::DownloadFirmwarePercent(40));
    assert!(matches!(wizard.current_step(), Step::SelectFile { progress: 40, .. }));
    wizard.update_steps(
        StepMessages::SelectFile(Some("/tmp/GoXLR_MINI_Firmware.bin".to_string())),
        Some(&image(b"GoXLR-Mini", 0x1234, 7)),
    );
    assert_eq!(wizard.current_step().title(), "Download Complete");
    assert_eq!(wizard.current_step().description(), "Please continue when ready");
}

#[test]
fn choosing_a_file_asks_for_the_file_dialog() {
    let mut wizard = wizard_at_method();
    wizard.update_steps(StepMessages::SetUpdateType(SelectUpdateOption::File), None);
    assert_eq!(wizard.advance(), None);
    assert_eq!(wizard.current_step().title(), "Select Firmware File");
    let reaction = wizard.update(PageMessages::SelectFirmware);
    assert_eq!(reaction.task, Some(Task::PickFile));
    assert!(reaction.messages.is_empty());
    assert!(!wizard.can_continue());
    wizard.update(PageMessages::SetAcceptDowngrade(true));
    wizard.update(PageMessages::SetFirmwareValid(true));
    assert!(matches!(
        wizard.current_step(),
        Step::SelectFile { downgrade: true, file_valid: true, .. }
    ));
    assert!(wizard.can_continue());
}

#[test]
fn the_update_starts_with_device_and_firmware() {
    let mut wizard = wizard_at_method();
    wizard.update_steps(StepMessages::SetUpdateType(SelectUpdateOption::File), None);
    wizard.advance();
    let details = FirmwareDetails {
        path: "/tmp/mini.bin".to_string(),
        device_type: DeviceType::Mini,
        version: VersionNumber(1, 3, 0, 1),
    };
    wizard.update_steps(StepMessages::SetFirmware(details.clone()), None);
    wizard.update(PageMessages::SetFirmwareValid(true));
    let task = wizard.advance();
    assert_eq!(
        task,
        Some(Task::Update(
            device("B", DeviceType::Mini, VersionNumber(1, 2, 0, 54)),
            details
        ))
    );
    assert_eq!(wizard.current_step().title(), "Updating..");
    assert!(!wizard.can_continue());
    wizard.update(PageMessages::UpdateFirmwareStage("Writing Firmware..".to_string()));
    wizard.update(PageMessages::UpdateFirmwarePercent(77));
    wizard.update(PageMessages::UpdateFirmwareMessage("done".to_string()));
    wizard.update(PageMessages::UpdateFirmwareIsError(true));
    assert!(!wizard.can_continue());
    wizard.update(PageMessages::UpdateFirmwareComplete(true));
    assert!(matches!(
        wizard.current_step(),
        Step::RunUpdate { percentage: 77, complete: true, is_error: true, message: Some(m), stage, .. }
            if m == "done" && stage == "Writing Firmware.."
    ));
    assert!(wizard.can_continue());
    assert_eq!(wizard.advance(), None);
    assert_eq!(wizard.current_step(), &Step::Finish);
    assert_eq!(wizard.current_step().title(), "Finished.");
    assert!(!wizard.can_continue());
    assert_eq!(wizard.advance(), None);
    assert_eq!(wizard.current_index(), 8);
}

#[test]
fn forgetting_the_firmware_leaves_nothing_to_install() {
    let mut run = Step::RunUpdate {
        device: Some(device("B", DeviceType::Mini, VersionNumber(1, 2, 0, 54))),
        firmware: None,
        stage: "Starting".to_string(),
        percentage: 0,
        message: None,
        complete: false,
        is_error: false,
    };
    assert_eq!(run.pre_display(), None);
    let details = FirmwareDetails {
        path: "p".to_string(),
        device_type: DeviceType::Mini,
        version: VersionNumber(1, 3, 0, 1),
    };
    run.direct(&StepMessages::SetFirmware(details), None);
    assert!(matches!(run.pre_display(), Some(Task::Update(_, _))));
    run.direct(&StepMessages::ClearFirmware(), None);
    assert_eq!(run.pre_display(), None);
}
