//! What the caller is asked to run: the backend's command line, and the
//! notice announced once after the application has come up.

use vstd::prelude::*;

verus! {

/// The executable that runs the backend, looked up on the search path.
pub const BACKEND_PROGRAM: &'static str = "java";

/// The flag that makes the executable run an archive.
pub const BACKEND_ARCHIVE_FLAG: &'static str = "-jar";

/// The backend's archive, relative to the application's working directory.
pub const BACKEND_ARCHIVE: &'static str = "backend/target/tauri-pos-app-0.1.0.jar";

/// The name of the event that announces the backend's start to the front end.
pub const STARTUP_EVENT: &'static str = "backend-starting";

/// How long after application setup the announcement is made, in seconds.
pub const STARTUP_DELAY_SECS: u64 = 2;

/// Where one of the child's output streams goes.
#[derive(Clone, Copy, Debug, PartialEq, Eq, Structural)]
pub enum StreamMode {
    /// The child writes to the parent's own stream.
    Inherited,
    /// The child writes into a pipe whose reading end the parent owns.
    Piped,
    /// What the child writes is thrown away.
    Discarded,
}

/// A command line together with the destinations of the child's output.
#[derive(Debug)]
pub struct BackendCommand {
    pub program: String,
    pub args: Vec<String>,
    pub stdout: StreamMode,
    pub stderr: StreamMode,
}

/// A `BackendCommand` as plain sequences of characters.
pub struct BackendCommandView {
    pub program: Seq<char>,
    pub args: Seq<Seq<char>>,
    pub stdout: StreamMode,
    pub stderr: StreamMode,
}

impl View for BackendCommand {
    type V = BackendCommandView;

    open spec fn view(&self) -> BackendCommandView {
        BackendCommandView {
            program: self.program@,
            args: Seq::new(self.args@.len(), |i: int| self.args@[i]@),
            stdout: self.stdout,
            stderr: self.stderr,
        }
    }
}

/// The one command this crate ever asks for: the backend's archive run by
/// the fixed executable, with both output streams piped so that the child
/// does not hold on to the parent's console.
pub open spec fn backend_command_view() -> BackendCommandView {
    BackendCommandView {
        program: BACKEND_PROGRAM@,
        args: seq![BACKEND_ARCHIVE_FLAG@, BACKEND_ARCHIVE@],
        stdout: StreamMode::Piped,
        stderr: StreamMode::Piped,
    }
}

/// Builds the command that starts the backend.
pub fn backend_command() -> (command: BackendCommand)
    ensures
        command@ == backend_command_view(),
        command.program@ == BACKEND_PROGRAM@,
        command.args@.len() == 2,
        command.args@[0]@ == BACKEND_ARCHIVE_FLAG@,
        command.args@[1]@ == BACKEND_ARCHIVE@,
        command.stdout == StreamMode::Piped,
        command.stderr == StreamMode::Piped,
{
    let mut args: Vec<String> = Vec::new();
    args.push(String::from_str(BACKEND_ARCHIVE_FLAG));
    args.push(String::from_str(BACKEND_ARCHIVE));
    let command = BackendCommand {
        program: String::from_str(BACKEND_PROGRAM),
        args,
        stdout: StreamMode::Piped,
        stderr: StreamMode::Piped,
    };
    assert(command@.args =~= seq![BACKEND_ARCHIVE_FLAG@, BACKEND_ARCHIVE@]);
    command
}

/// An announcement to be broadcast to every front-end listener, without a
/// payload, once the delay has passed.
#[derive(Debug)]
pub struct StartupNotice {
    pub delay_secs: u64,
    pub event: String,
}

/// The announcement made once per application launch. Making it touches no
/// supervisor state, and its failure is of no consequence to the caller.
pub fn startup_notice() -> (notice: StartupNotice)
    ensures
        notice.delay_secs == STARTUP_DELAY_SECS,
        notice.delay_secs == 2,
        notice.event@ == STARTUP_EVENT@,
{
    StartupNotice { delay_secs: STARTUP_DELAY_SECS, event: String::from_str(STARTUP_EVENT) }
}

} // verus!
