use goxlr_updater::firmware::FirmwareImage;
use goxlr_updater::messages::PageMessages;
use goxlr_updater::update::{
    setup_error, DeviceCommand, DeviceReply, ProtocolError, Stage, Step, Terminal, UpdateSession,
};

fn image_of(length: usize) -> FirmwareImage {
    let mut bytes: Vec<u8> = (0..length).map(|i| (i % 251) as u8).collect();
    bytes[..16].copy_from_slice(b"GoXLR-Mini\0\0\0\0\0\0");
    bytes[24..28].copy_from_slice(&0x1234u32.to_le_bytes());
    bytes[28..32].copy_from_slice(&7u32.to_le_bytes());
    match FirmwareImage::load(bytes) {
        Ok(image) => image,
        Err(error) => panic!("refused: {:?}", error),
    }
}

fn session_of(length: usize) -> UpdateSession {
    match UpdateSession::new(image_of(length)) {
        Some(session) => session,
        None => panic!("no session"),
    }
}

fn stage(name: &str) -> PageMessages {
    PageMessages::UpdateFirmwareStage(name.to_string())
}

fn percent(value: u8) -> PageMessages {
    PageMessages::UpdateFirmwarePercent(value)
}

fn failure(text: &str) -> Vec<PageMessages> {
    vec![
        PageMessages::UpdateFirmwareMessage(format!("Error: {}", text)),
        PageMessages::UpdateFirmwareIsError(true),
        PageMessages::UpdateFirmwareComplete(true),
    ]
}

/// Answers every command as a device that works would, and records what
/// the session asked for and said.
fn run_to_end(session: &mut UpdateSession, fail_at: Option<DeviceCommand>) -> Vec<Step> {
    let mut steps = vec![session.start()];
    let mut erase: u8 = 0;
    let mut polls: u32 = 0;
    loop {
        let command = match steps[steps.len() - 1].command {
            Some(command) => command,
            None => break,
        };
        let matches_failure = match (fail_at, command) {
            (Some(DeviceCommand::SendPacket { offset: a, .. }), DeviceCommand::SendPacket { offset: b, .. }) => a == b,
            (Some(DeviceCommand::ValidatePacket { .. }), DeviceCommand::ValidatePacket { .. }) => true,
            (Some(wanted), got) => wanted == got,
            (None, _) => false,
        };
        let reply = if matches_failure {
            DeviceReply::Failed("device gone".to_string())
        } else {
            match command {
                DeviceCommand::BeginErase
                | DeviceCommand::BeginVerify
                | DeviceCommand::BeginFinalise
                | DeviceCommand::SendPacket { .. }
                | DeviceCommand::Reboot => DeviceReply::Done,
                DeviceCommand::PollErase => {
                    erase = erase.saturating_add(85);
                    DeviceReply::EraseProgress(erase)
                }
                DeviceCommand::ValidatePacket { remaining, hash, .. } => DeviceReply::Validated {
                    hash: hash.wrapping_add(1),
                    count: remaining.min(1000),
                },
                DeviceCommand::PollVerify | DeviceCommand::PollFinalise => {
                    polls += 1;
                    DeviceReply::Status {
                        complete: polls % 2 == 0,
                        total: 4,
                        done: if polls % 2 == 0 { 4 } else { 2 },
                    }
                }
            }
        };
        if command == DeviceCommand::Reboot {
            // The answer to the reboot is of no interest to the session.
            let after = session.advance(reply);
            assert_eq!(after.command, None);
            assert!(after.notes.is_empty());
            break;
        }
        steps.push(session.advance(reply));
    }
    steps
}

fn reboots_in(steps: &[Step]) -> usize {
    steps
        .iter()
        .filter(|step| step.command == Some(DeviceCommand::Reboot))
        .count()
}

fn notes_of(steps: &[Step]) -> Vec<PageMessages> {
    steps.iter().flat_map(|step| step.notes.clone()).collect()
}

#[test]
fn upload_of_2500_bytes_takes_three_packets() {
    let mut session = session_of(2500);
    let steps = run_to_end(&mut session, None);
    let packets: Vec<(u64, u32)> = steps
        .iter()
        .filter_map(|step| match step.command {
            Some(DeviceCommand::SendPacket { offset, length }) => Some((offset, length)),
            _ => None,
        })
        .collect();
    assert_eq!(packets, vec![(0, 1012), (1012, 1012), (2024, 476)]);
}

#[test]
fn packet_hands_out_the_bytes_of_the_image() {
    let image = image_of(2500);
    let bytes = image.bytes().to_vec();
    let mut session = UpdateSession::new(image).unwrap();
    assert_eq!(session.packet(), None);
    session.start();
    session.advance(DeviceReply::Done);
    let step = session.advance(DeviceReply::EraseProgress(255));
    assert_eq!(
        step.command,
        Some(DeviceCommand::SendPacket { offset: 0, length: 1012 })
    );
    assert_eq!(session.packet(), Some(&bytes[0..1012]));
    session.advance(DeviceReply::Done);
    assert_eq!(session.packet(), Some(&bytes[1012..2024]));
    session.advance(DeviceReply::Done);
    assert_eq!(session.packet(), Some(&bytes[2024..2500]));
    session.advance(DeviceReply::Done);
    assert_eq!(session.packet(), None);
}

#[test]
fn a_whole_update_runs_through_the_stages_in_order() {
    let mut session = session_of(2500);
    let steps = run_to_end(&mut session, None);
    let notes = notes_of(&steps);
    assert_eq!(
        notes,
        vec![
            stage("Preparing Update Partition"),
            percent(0),
            percent(33),
            percent(66),
            percent(100),
            stage("Uploading Firmware to Device"),
            percent(0),
            percent(40),
            percent(80),
            percent(100),
            stage("Verifying File Upload"),
            percent(0),
            percent(40),
            percent(80),
            percent(100),
            stage("Device Firmware Verification"),
            percent(0),
            percent(50),
            percent(100),
            stage("Writing Firmware.."),
            percent(0),
            percent(50),
            percent(100),
            PageMessages::UpdateFirmwareMessage(
                "Your GoXLR Has updated Successfully!".to_string()
            ),
            percent(100),
            PageMessages::UpdateFirmwareComplete(true),
        ]
    );
    assert_eq!(session.stage(), Stage::Rebooted);
    assert_eq!(session.terminal(), Terminal::Success);
    assert_eq!(reboots_in(&steps), 1);
    assert_eq!(
        steps[steps.len() - 1].command,
        Some(DeviceCommand::Reboot)
    );
}

#[test]
fn commands_come_in_protocol_order() {
    let mut session = session_of(1500);
    let steps = run_to_end(&mut session, None);
    let commands: Vec<DeviceCommand> = steps.iter().filter_map(|step| step.command).collect();
    assert_eq!(
        commands,
        vec![
            DeviceCommand::BeginErase,
            DeviceCommand::PollErase,
            DeviceCommand::PollErase,
            DeviceCommand::PollErase,
            DeviceCommand::SendPacket { offset: 0, length: 1012 },
            DeviceCommand::SendPacket { offset: 1012, length: 488 },
            DeviceCommand::ValidatePacket { processed: 0, hash: 0, remaining: 1500 },
            DeviceCommand::ValidatePacket { processed: 1000, hash: 1, remaining: 500 },
            DeviceCommand::BeginVerify,
            DeviceCommand::PollVerify,
            DeviceCommand::PollVerify,
            DeviceCommand::BeginFinalise,
            DeviceCommand::PollFinalise,
            DeviceCommand::PollFinalise,
            DeviceCommand::Reboot,
        ]
    );
}

#[test]
fn polls_wait_and_packets_do_not() {
    let mut session = session_of(1500);
    let steps = run_to_end(&mut session, None);
    for step in &steps {
        let expected = match step.command {
            Some(DeviceCommand::PollErase)
            | Some(DeviceCommand::PollVerify)
            | Some(DeviceCommand::PollFinalise) => 100,
            Some(DeviceCommand::ValidatePacket { processed, .. }) => {
                if processed == 0 {
                    0
                } else {
                    100
                }
            }
            _ => 0,
        };
        assert_eq!(step.delay_ms, expected, "{:?}", step.command);
    }
}

#[test]
fn every_failure_reboots_exactly_once() {
    let cases = [
        (DeviceCommand::BeginErase, "Unable to start NVR Clear: device gone", ProtocolError::EraseBegin),
        (DeviceCommand::PollErase, "Error Polling NVR Clear: device gone", ProtocolError::ErasePoll),
        (
            DeviceCommand::SendPacket { offset: 1012, length: 0 },
            "Error uploading Firmware Chunk: device gone",
            ProtocolError::PacketSend,
        ),
        (
            DeviceCommand::ValidatePacket { processed: 0, hash: 0, remaining: 0 },
            "Error Validating Firmware Packet: device gone",
            ProtocolError::PacketValidate,
        ),
        (DeviceCommand::BeginVerify, "Unable to Start Verification: device gone", ProtocolError::VerifyBegin),
        (DeviceCommand::PollVerify, "Device Validation Failed: device gone", ProtocolError::VerifyPoll),
        (DeviceCommand::BeginFinalise, "Unable to Start Write: device gone", ProtocolError::FinaliseBegin),
        (DeviceCommand::PollFinalise, "Progress Check Failed: device gone", ProtocolError::FinalisePoll),
    ];
    for (command, text, error) in cases {
        let mut session = session_of(2500);
        let steps = run_to_end(&mut session, Some(command));
        assert_eq!(reboots_in(&steps), 1, "{:?}", command);
        let last = &steps[steps.len() - 1];
        assert_eq!(last.command, Some(DeviceCommand::Reboot));
        assert_eq!(last.notes, failure(text));
        assert_eq!(session.stage(), Stage::Rebooted);
        assert_eq!(session.terminal(), Terminal::Error(error));
        let notes = notes_of(&steps);
        let completions = notes
            .iter()
            .filter(|note| matches!(note, PageMessages::UpdateFirmwareComplete(_)))
            .count();
        assert_eq!(completions, 1);
        assert!(!notes.contains(&PageMessages::UpdateFirmwareMessage(
            "Your GoXLR Has updated Successfully!".to_string()
        )));
    }
}

#[test]
fn overrun_while_validating_is_a_length_mismatch() {
    let mut session = session_of(2500);
    session.start();
    session.advance(DeviceReply::Done);
    session.advance(DeviceReply::EraseProgress(255));
    session.advance(DeviceReply::Done);
    session.advance(DeviceReply::Done);
    let step = session.advance(DeviceReply::Done);
    assert_eq!(
        step.command,
        Some(DeviceCommand::ValidatePacket { processed: 0, hash: 0, remaining: 2500 })
    );
    let step = session.advance(DeviceReply::Validated { hash: 9, count: 2000 });
    assert_eq!(
        step.command,
        Some(DeviceCommand::ValidatePacket { processed: 2000, hash: 9, remaining: 500 })
    );
    assert_eq!(step.notes, vec![percent(80)]);
    let step = session.advance(DeviceReply::Validated { hash: 10, count: 501 });
    assert_eq!(step.command, Some(DeviceCommand::Reboot));
    assert_eq!(
        step.notes,
        failure("Error Validating Firmware, Length Mismatch")
    );
    assert_eq!(
        session.terminal(),
        Terminal::Error(ProtocolError::LengthMismatch)
    );
}

#[test]
fn overrun_is_caught_near_the_top_of_the_range() {
    let mut session = session_of(2500);
    session.start();
    session.advance(DeviceReply::Done);
    session.advance(DeviceReply::EraseProgress(255));
    session.advance(DeviceReply::Done);
    session.advance(DeviceReply::Done);
    session.advance(DeviceReply::Done);
    session.advance(DeviceReply::Validated { hash: 1, count: 2499 });
    let step = session.advance(DeviceReply::Validated { hash: 1, count: u32::MAX });
    assert_eq!(step.command, Some(DeviceCommand::Reboot));
    assert_eq!(
        session.terminal(),
        Terminal::Error(ProtocolError::LengthMismatch)
    );
}

#[test]
fn exact_validation_moves_on() {
    let mut session = session_of(2500);
    session.start();
    session.advance(DeviceReply::Done);
    session.advance(DeviceReply::EraseProgress(255));
    session.advance(DeviceReply::Done);
    session.advance(DeviceReply::Done);
    session.advance(DeviceReply::Done);
    let step = session.advance(DeviceReply::Validated { hash: 3, count: 2500 });
    assert_eq!(step.command, Some(DeviceCommand::BeginVerify));
    assert_eq!(
        step.notes,
        vec![percent(100), stage("Device Firmware Verification"), percent(0)]
    );
    assert_eq!(session.stage(), Stage::HardwareVerify);
}

#[test]
fn repeated_erase_progress_is_announced_once() {
    let mut session = session_of(2500);
    let first = session.start();
    assert_eq!(
        first.notes,
        vec![stage("Preparing Update Partition"), percent(0)]
    );
    assert_eq!(first.command, Some(DeviceCommand::BeginErase));
    assert_eq!(session.advance(DeviceReply::Done).notes, vec![]);
    assert_eq!(session.advance(DeviceReply::EraseProgress(0)).notes, vec![]);
    assert_eq!(session.advance(DeviceReply::EraseProgress(2)).notes, vec![]);
    assert_eq!(
        session.advance(DeviceReply::EraseProgress(3)).notes,
        vec![percent(1)]
    );
    assert_eq!(session.advance(DeviceReply::EraseProgress(5)).notes, vec![]);
    assert_eq!(
        session.advance(DeviceReply::EraseProgress(128)).notes,
        vec![percent(50)]
    );
    assert_eq!(session.advance(DeviceReply::EraseProgress(128)).notes, vec![]);
    assert_eq!(
        session.advance(DeviceReply::EraseProgress(254)).notes,
        vec![percent(99)]
    );
    let last = session.advance(DeviceReply::EraseProgress(255));
    assert_eq!(
        last.notes,
        vec![percent(100), stage("Uploading Firmware to Device"), percent(0)]
    );
}

#[test]
fn status_percentages_follow_done_over_total() {
    let mut session = session_of(1000);
    session.start();
    session.advance(DeviceReply::Done);
    session.advance(DeviceReply::EraseProgress(255));
    session.advance(DeviceReply::Done);
    session.advance(DeviceReply::Validated { hash: 0, count: 1000 });
    let step = session.advance(DeviceReply::Done);
    assert_eq!(step.command, Some(DeviceCommand::PollVerify));
    let step = session.advance(DeviceReply::Status { complete: false, total: 3, done: 1 });
    assert_eq!(step.notes, vec![percent(33)]);
    let step = session.advance(DeviceReply::Status { complete: false, total: 3, done: 2 });
    assert_eq!(step.notes, vec![percent(66)]);
    let step = session.advance(DeviceReply::Status { complete: false, total: 0, done: 0 });
    assert_eq!(step.notes, vec![percent(0)]);
    let step = session.advance(DeviceReply::Status { complete: false, total: 0, done: 5 });
    assert_eq!(step.notes, vec![percent(100)]);
    let step = session.advance(DeviceReply::Status { complete: false, total: 1, done: 3 });
    assert_eq!(step.notes, vec![]);
    let step = session.advance(DeviceReply::Status { complete: false, total: 4, done: 3 });
    assert_eq!(step.notes, vec![percent(75)]);
    let step = session.advance(DeviceReply::Status {
        complete: false,
        total: 1,
        done: u32::MAX,
    });
    assert_eq!(step.notes, vec![percent(100)]);
    let step = session.advance(DeviceReply::Status { complete: false, total: 3, done: 2 });
    assert_eq!(step.notes, vec![percent(66)]);
    let step = session.advance(DeviceReply::Status { complete: true, total: 3, done: 3 });
    assert_eq!(
        step.notes,
        vec![percent(100), stage("Writing Firmware.."), percent(0)]
    );
    assert_eq!(step.command, Some(DeviceCommand::BeginFinalise));
}

#[test]
fn no_status_is_announced_above_one_hundred() {
    for (total, done) in [(0u32, 1u32), (0, u32::MAX), (1, 2), (10, 26), (u32::MAX, u32::MAX)] {
        let mut session = session_of(1000);
        session.start();
        session.advance(DeviceReply::Done);
        session.advance(DeviceReply::EraseProgress(255));
        session.advance(DeviceReply::Done);
        session.advance(DeviceReply::Validated { hash: 0, count: 1000 });
        session.advance(DeviceReply::Done);
        let step = session.advance(DeviceReply::Status { complete: false, total, done });
        assert_eq!(step.notes, vec![percent(100)]);
        assert_eq!(step.command, Some(DeviceCommand::PollVerify));
        let step = session.advance(DeviceReply::Status { complete: true, total, done });
        assert_eq!(
            step.notes,
            vec![stage("Writing Firmware.."), percent(0)]
        );
        session.advance(DeviceReply::Done);
        let step = session.advance(DeviceReply::Status { complete: true, total, done });
        assert_eq!(step.command, Some(DeviceCommand::Reboot));
        assert_eq!(step.notes[0], percent(100));
    }
}

#[test]
fn an_answer_that_does_not_fit_ends_the_session() {
    let mut session = session_of(1000);
    session.start();
    let step = session.advance(DeviceReply::EraseProgress(10));
    assert_eq!(step.command, Some(DeviceCommand::Reboot));
    assert_eq!(step.notes, failure("Unexpected Reply from Device"));
    assert_eq!(
        session.terminal(),
        Terminal::Error(ProtocolError::UnexpectedReply)
    );
}

#[test]
fn a_session_that_ended_stays_ended() {
    let mut session = session_of(1000);
    session.start();
    session.advance(DeviceReply::Failed("no".to_string()));
    let state = session.current();
    for reply in [
        DeviceReply::Done,
        DeviceReply::EraseProgress(255),
        DeviceReply::Failed("again".to_string()),
        DeviceReply::Status { complete: true, total: 1, done: 1 },
    ] {
        let step = session.advance(reply);
        assert_eq!(step.command, None);
        assert!(step.notes.is_empty());
        assert_eq!(session.current(), state);
    }
    let again = session.start();
    assert_eq!(again.command, None);
    assert!(again.notes.is_empty());
}

#[test]
fn nothing_happens_before_the_start() {
    let mut session = session_of(1000);
    assert_eq!(session.stage(), Stage::Idle);
    assert_eq!(session.terminal(), Terminal::Pending);
    assert_eq!(session.awaiting(), None);
    let step = session.advance(DeviceReply::Done);
    assert_eq!(step.command, None);
    assert!(step.notes.is_empty());
    assert_eq!(session.stage(), Stage::Idle);
}

#[test]
fn setup_error_names_no_stage() {
    assert_eq!(
        setup_error("Unable to Load Firmware from Disk"),
        vec![
            stage("Preparing..."),
            percent(0),
            PageMessages::UpdateFirmwareMessage(
                "Error: Unable to Load Firmware from Disk".to_string()
            ),
            PageMessages::UpdateFirmwareIsError(true),
            PageMessages::UpdateFirmwareComplete(true),
        ]
    );
}

#[test]
fn percentages_never_repeat_in_a_row() {
    for length in [64usize, 1012, 1013, 2500, 100_000] {
        let mut session = session_of(length);
        let steps = run_to_end(&mut session, None);
        let notes = notes_of(&steps);
        for pair in notes.windows(2) {
            if let (PageMessages::UpdateFirmwarePercent(a), PageMessages::UpdateFirmwarePercent(b)) =
                (&pair[0], &pair[1])
            {
                assert!(a < b, "{} then {} for {}", a, b, length);
            }
        }
    }
}
