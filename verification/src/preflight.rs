//! Before an update: making sure that no other program holds the device.
//!
//! The official app, its beta and the utility each keep the device open
//! while they run. The caller counts the processes by name, again and
//! again; this module says which names to look for, what to tell the user,
//! and when to stop looking.

use crate::messages::{Message, MessageView, PageMessages, PageMessagesView};
use vstd::prelude::*;

verus! {

/// How long to wait between two looks at the running processes, in
/// milliseconds.
pub const CHECK_DELAY_MS: u64 = 1000;

/// The programs that must be closed before an update.
#[derive(Clone, Copy, Debug, PartialEq, Eq, Structural)]
pub enum Program {
    /// The official app.
    App,
    /// The beta of the official app.
    Beta,
    /// The utility, under the name it has on Windows.
    Utility,
    /// The utility, under the name it has elsewhere.
    UtilityLinux,
}

/// The name of the process that a program runs as.
pub open spec fn process_name_of(program: Program) -> Seq<char> {
    match program {
        Program::App => "GoXLR App.exe"@,
        Program::Beta => "GoXLR Beta App.exe"@,
        Program::Utility => "goxlr-daemon.exe"@,
        Program::UtilityLinux => "goxlr-daemon"@,
    }
}

/// The exact name of the process that a program runs as.
pub fn process_name(program: Program) -> (name: &'static str)
    ensures
        name@ == process_name_of(program),
{
    match program {
        Program::App => "GoXLR App.exe",
        Program::Beta => "GoXLR Beta App.exe",
        Program::Utility => "goxlr-daemon.exe",
        Program::UtilityLinux => "goxlr-daemon",
    }
}

/// What one look at the running processes comes to.
pub struct StatusReport {
    /// What to tell the user interface.
    pub message: Message,
    /// Whether everything is closed, so that there is no need to look again.
    pub finished: bool,
}

/// The message that says which programs are running. The utility counts
/// as running under either of its names.
pub open spec fn status_message(app: nat, beta: nat, utility: nat, utility_linux: nat) -> MessageView {
    MessageView::PageMessage(
        PageMessagesView::UpdateStatusCheck(app > 0, beta > 0, utility > 0 || utility_linux > 0),
    )
}

/// Turns the number of processes found under each name into the message
/// for the user interface, and says whether looking can stop.
pub fn status_report(app: usize, beta: usize, utility: usize, utility_linux: usize) -> (report:
    StatusReport)
    ensures
        report.message@ == status_message(
            app as nat,
            beta as nat,
            utility as nat,
            utility_linux as nat,
        ),
        report.finished == (app == 0 && beta == 0 && utility == 0 && utility_linux == 0),
{
    let app_running = app > 0;
    let beta_running = beta > 0;
    let utility_running = utility > 0 || utility_linux > 0;
    StatusReport {
        message: Message::PageMessage(
            PageMessages::UpdateStatusCheck(app_running, beta_running, utility_running),
        ),
        finished: !app_running && !beta_running && !utility_running,
    }
}

} // verus!
