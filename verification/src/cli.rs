//! The subcommands of the executable, and what the process does with the one
//! it is given.

use crate::config::{save_step, save_view, Config, ConfigView, SaveCall, SaveCallView, StoreReply};
use crate::error::{clone_result, result_view, Error, ErrorView};
use vstd::prelude::*;

verus! {

/// What the executable can be asked to do.
#[derive(Clone, Copy, Debug, PartialEq, Eq, Structural)]
pub enum Command {
    /// Register the service.
    Install,
    /// Take the registration away.
    Uninstall,
    /// Start the service.
    Start,
    /// Stop the service.
    Stop,
    /// Run as the service, hosted by the service manager.
    Run,
    /// Write the default configuration to the sidecar file.
    SaveConfig,
    /// Run the server in the foreground.
    Serve,
}

/// The name of the file beside the executable that may refine what is logged.
pub const LOG_SPEC_FILE_NAME: &'static str = "logspec.toml";

/// What is logged when nothing refines it.
pub const LOG_LEVEL: &'static str = "info";

/// How many log files are kept when the log is rotated.
pub const KEPT_LOG_FILES: usize = 4;

/// How often the log starts a new file.
#[derive(Clone, Copy, Debug, PartialEq, Eq, Structural)]
pub enum Rotation {
    Hourly,
    Daily,
}

/// How the files of a rotated log are told apart.
#[derive(Clone, Copy, Debug, PartialEq, Eq, Structural)]
pub enum LogNaming {
    Timestamps,
    Numbers,
}

/// The least severity that is shown.
#[derive(Clone, Copy, Debug, PartialEq, Eq, Structural)]
pub enum Severity {
    Error,
    Warn,
    Info,
    Debug,
    Trace,
}

/// How the log of the process is set up.
#[derive(Debug, PartialEq, Eq)]
pub struct LogSettings {
    /// What is logged, unless the file named below says otherwise.
    pub level: String,
    /// The file beside the executable that may refine what is logged.
    pub spec_file_name: String,
    /// Whether the log files lie beside the executable.
    pub beside_executable: bool,
    pub rotation: Rotation,
    pub naming: LogNaming,
    pub kept_files: usize,
    /// Whether each line names the place in the source that logged it.
    pub detailed: bool,
    /// Whether the place of the log file is printed at the start.
    pub print_message: bool,
    /// The least severity that is shown on standard output too.
    pub duplicate_to_stdout: Severity,
    /// Whether lines are written by a thread of their own.
    pub asynchronous: bool,
}

/// [`LogSettings`] as the contracts see it.
pub struct LogSettingsView {
    pub level: Seq<char>,
    pub spec_file_name: Seq<char>,
    pub beside_executable: bool,
    pub rotation: Rotation,
    pub naming: LogNaming,
    pub kept_files: usize,
    pub detailed: bool,
    pub print_message: bool,
    pub duplicate_to_stdout: Severity,
    pub asynchronous: bool,
}

impl View for LogSettings {
    type V = LogSettingsView;

    open spec fn view(&self) -> LogSettingsView {
        LogSettingsView {
            level: self.level@,
            spec_file_name: self.spec_file_name@,
            beside_executable: self.beside_executable,
            rotation: self.rotation,
            naming: self.naming,
            kept_files: self.kept_files,
            detailed: self.detailed,
            print_message: self.print_message,
            duplicate_to_stdout: self.duplicate_to_stdout,
            asynchronous: self.asynchronous,
        }
    }
}

impl Clone for LogSettings {
    fn clone(&self) -> (copy: LogSettings)
        ensures
            copy@ == self@,
    {
        LogSettings {
            level: self.level.clone(),
            spec_file_name: self.spec_file_name.clone(),
            beside_executable: self.beside_executable,
            rotation: self.rotation,
            naming: self.naming,
            kept_files: self.kept_files,
            detailed: self.detailed,
            print_message: self.print_message,
            duplicate_to_stdout: self.duplicate_to_stdout,
            asynchronous: self.asynchronous,
        }
    }
}

/// The log of the process: at the level "info", in files beside the
/// executable that are rotated daily and told apart by timestamps, the last
/// four of them kept; detailed lines, shown on standard output too from
/// "info" up, written by a thread of their own.
pub fn create_logger() -> (settings: LogSettings)
    ensures
        settings@ == (LogSettingsView {
            level: LOG_LEVEL@,
            spec_file_name: LOG_SPEC_FILE_NAME@,
            beside_executable: true,
            rotation: Rotation::Daily,
            naming: LogNaming::Timestamps,
            kept_files: KEPT_LOG_FILES,
            detailed: true,
            print_message: true,
            duplicate_to_stdout: Severity::Info,
            asynchronous: true,
        }),
{
    LogSettings {
        level: LOG_LEVEL.to_owned(),
        spec_file_name: LOG_SPEC_FILE_NAME.to_owned(),
        beside_executable: true,
        rotation: Rotation::Daily,
        naming: LogNaming::Timestamps,
        kept_files: KEPT_LOG_FILES,
        detailed: true,
        print_message: true,
        duplicate_to_stdout: Severity::Info,
        asynchronous: true,
    }
}

/// Saves the default configuration to the sidecar file.
pub fn save_default_config(pending: Option<SaveCall>, reply: StoreReply) -> (call: SaveCall)
    ensures
        call@ == save_step(ConfigView::initial(), save_view(pending), reply@),
{
    Config::default().save(pending, reply)
}

/// A call that the process asks its driver to make.
#[derive(Debug, PartialEq, Eq)]
pub enum MainCall {
    /// Open the log, set up as [`create_logger`] says.
    CreateLogger,
    /// Run the subcommand to its end.
    Run(Command),
    /// Put the failure of the subcommand on record.
    LogFailure { command: Command, error: Error },
    /// Leave the process, with this result.
    Exit(Result<(), Error>),
}

/// [`MainCall`] as the contracts see it.
pub enum MainCallView {
    CreateLogger,
    Run(Command),
    LogFailure { command: Command, error: ErrorView },
    Exit(Result<(), ErrorView>),
}

impl View for MainCall {
    type V = MainCallView;

    open spec fn view(&self) -> MainCallView {
        match *self {
            MainCall::CreateLogger => MainCallView::CreateLogger,
            MainCall::Run(command) => MainCallView::Run(command),
            MainCall::LogFailure { command, error } => MainCallView::LogFailure {
                command,
                error: error@,
            },
            MainCall::Exit(result) => MainCallView::Exit(result_view(result)),
        }
    }
}

impl Clone for MainCall {
    fn clone(&self) -> (copy: MainCall)
        ensures
            copy@ == self@,
    {
        match self {
            MainCall::CreateLogger => MainCall::CreateLogger,
            MainCall::Run(command) => MainCall::Run(*command),
            MainCall::LogFailure { command, error } => MainCall::LogFailure {
                command: *command,
                error: error.clone(),
            },
            MainCall::Exit(result) => MainCall::Exit(clone_result(result)),
        }
    }
}

/// What came of a call.
#[derive(Debug, PartialEq, Eq)]
pub enum MainReply {
    /// The call was made, and there is nothing to tell.
    Done,
    /// The subcommand came to its end, with this result.
    Finished(Result<(), Error>),
    /// The call failed.
    Failed(String),
}

/// [`MainReply`] as the contracts see it.
pub enum MainReplyView {
    Done,
    Finished(Result<(), ErrorView>),
    Failed(Seq<char>),
}

impl View for MainReply {
    type V = MainReplyView;

    open spec fn view(&self) -> MainReplyView {
        match *self {
            MainReply::Done => MainReplyView::Done,
            MainReply::Finished(result) => MainReplyView::Finished(result_view(result)),
            MainReply::Failed(cause) => MainReplyView::Failed(cause@),
        }
    }
}

impl Clone for MainReply {
    fn clone(&self) -> (copy: MainReply)
        ensures
            copy@ == self@,
    {
        match self {
            MainReply::Done => MainReply::Done,
            MainReply::Finished(result) => MainReply::Finished(clone_result(result)),
            MainReply::Failed(cause) => MainReply::Failed(cause.clone()),
        }
    }
}

/// The pending call as the contracts see it.
pub open spec fn pending_view(pending: Option<MainCall>) -> Option<MainCallView> {
    match pending {
        Some(call) => Some(call@),
        None => None,
    }
}

/// The call that the process makes after `pending` was answered with
/// `reply`: open the log, run the subcommand, put its failure on record if it
/// has one, and leave with its result. Without a log nothing is run.
pub open spec fn run_command_step(
    command: Command,
    pending: Option<MainCallView>,
    reply: MainReplyView,
) -> MainCallView {
    match pending {
        None => MainCallView::CreateLogger,
        Some(MainCallView::CreateLogger) => match reply {
            MainReplyView::Done => MainCallView::Run(command),
            MainReplyView::Failed(cause) => MainCallView::Exit(Err(ErrorView::Logger { cause })),
            _ => MainCallView::Exit(Err(ErrorView::OutOfStep)),
        },
        Some(MainCallView::Run(command)) => match reply {
            MainReplyView::Finished(Ok(())) => MainCallView::Exit(Ok(())),
            MainReplyView::Finished(Err(error)) => MainCallView::LogFailure { command, error },
            _ => MainCallView::Exit(Err(ErrorView::OutOfStep)),
        },
        Some(MainCallView::LogFailure { error, .. }) => MainCallView::Exit(Err(error)),
        Some(MainCallView::Exit(result)) => MainCallView::Exit(result),
    }
}

/// The process: opens the log, runs `command`, puts its failure on record,
/// and leaves with its result, which decides the exit code.
pub fn run_command(command: Command, pending: Option<MainCall>, reply: MainReply) -> (call:
    MainCall)
    ensures
        call@ == run_command_step(command, pending_view(pending), reply@),
{
    match pending {
        None => MainCall::CreateLogger,
        Some(MainCall::CreateLogger) => match reply {
            MainReply::Done => MainCall::Run(command),
            MainReply::Failed(cause) => MainCall::Exit(Err(Error::Logger { cause })),
            _ => MainCall::Exit(Err(Error::OutOfStep)),
        },
        Some(MainCall::Run(command)) => match reply {
            MainReply::Finished(Ok(())) => MainCall::Exit(Ok(())),
            MainReply::Finished(Err(error)) => MainCall::LogFailure { command, error },
            _ => MainCall::Exit(Err(Error::OutOfStep)),
        },
        Some(MainCall::LogFailure { error, .. }) => MainCall::Exit(Err(error)),
        Some(MainCall::Exit(result)) => MainCall::Exit(result),
    }
}

/// No failure of a subcommand is dropped: it is put on record under the name
/// of the subcommand, and the process then leaves with it.
pub proof fn a_failed_subcommand_is_put_on_record(
    command: Command,
    given: Command,
    error: ErrorView,
    reply: MainReplyView,
)
    ensures
        run_command_step(given, Some(MainCallView::Run(command)), MainReplyView::Finished(Err(error)))
            == (MainCallView::LogFailure { command, error }),
        run_command_step(given, Some(MainCallView::LogFailure { command, error }), reply)
            == MainCallView::Exit(Err(error)),
{
}

} // verus!
