//! What can go wrong while the driver runs, and how each failure is reported.

use vstd::prelude::*;
use vstd::string::StringExecFns;

verus! {

/// A failure of the driver.
///
/// All but [`DriverError::RelayWriteFailed`] end the run.
#[derive(Debug, PartialEq, Eq)]
pub enum DriverError {
    /// The session variable is not set.
    MissingEnvironment,
    /// The private directory for the pipes could not be created.
    DirectoryCreationFailed,
    /// The named pipe at `path` could not be created.
    PipeCreationFailed { path: String },
    /// The multiplexer could not be started.
    LauncherSpawnFailed,
    /// The named pipe at `path` could not be opened.
    PipeOpenFailed { path: String },
    /// Forwarding the driver's input to the picker failed.
    RelayWriteFailed,
    /// Copying the picker's output to the driver's output failed.
    RelayReadFailed,
    /// The reported exit status could not be read.
    ExitReadFailed,
    /// The reported exit status is not text.
    InvalidExitEncoding,
    /// The reported exit status is text, but no integer.
    InvalidExitValue,
    /// The driver was told the outcome of something it had not asked for.
    UnexpectedEvent,
}

/// The mathematical content of a [`DriverError`].
pub enum ErrorView {
    MissingEnvironment,
    DirectoryCreationFailed,
    PipeCreationFailed { path: Seq<char> },
    LauncherSpawnFailed,
    PipeOpenFailed { path: Seq<char> },
    RelayWriteFailed,
    RelayReadFailed,
    ExitReadFailed,
    InvalidExitEncoding,
    InvalidExitValue,
    UnexpectedEvent,
}

impl View for DriverError {
    type V = ErrorView;

    open spec fn view(&self) -> ErrorView {
        match self {
            DriverError::MissingEnvironment => ErrorView::MissingEnvironment,
            DriverError::DirectoryCreationFailed => ErrorView::DirectoryCreationFailed,
            DriverError::PipeCreationFailed { path } => ErrorView::PipeCreationFailed {
                path: path@,
            },
            DriverError::LauncherSpawnFailed => ErrorView::LauncherSpawnFailed,
            DriverError::PipeOpenFailed { path } => ErrorView::PipeOpenFailed { path: path@ },
            DriverError::RelayWriteFailed => ErrorView::RelayWriteFailed,
            DriverError::RelayReadFailed => ErrorView::RelayReadFailed,
            DriverError::ExitReadFailed => ErrorView::ExitReadFailed,
            DriverError::InvalidExitEncoding => ErrorView::InvalidExitEncoding,
            DriverError::InvalidExitValue => ErrorView::InvalidExitValue,
            DriverError::UnexpectedEvent => ErrorView::UnexpectedEvent,
        }
    }
}

impl ErrorView {
    /// Whether the failure ends the run.
    pub open spec fn is_fatal(self) -> bool {
        !(self is RelayWriteFailed)
    }

    /// The one line that describes the failure to the user.
    pub open spec fn message(self) -> Seq<char> {
        match self {
            ErrorView::MissingEnvironment => "TMUX variable not found"@,
            ErrorView::DirectoryCreationFailed => "failed to create temporary directory"@,
            ErrorView::PipeCreationFailed { path } => "failed to create FIFO `"@ + path + "`"@,
            ErrorView::LauncherSpawnFailed => "failed to execute `tmux` command"@,
            ErrorView::PipeOpenFailed { path } => "failed to open FIFO `"@ + path + "`"@,
            ErrorView::RelayWriteFailed => "failed to pipe standard input"@,
            ErrorView::RelayReadFailed => "failed to copy standard output"@,
            ErrorView::ExitReadFailed => "failed to read from exit code FIFO"@,
            ErrorView::InvalidExitEncoding => "failed to parse reported exit code: invalid string"@,
            ErrorView::InvalidExitValue => "failed to parse reported exit code"@,
            ErrorView::UnexpectedEvent => "unexpected event"@,
        }
    }
}

impl DriverError {
    /// Whether the failure ends the run. Only a failure to forward input does not:
    /// it is reported, and the driver goes on to collect output and exit status.
    pub fn is_fatal(&self) -> (fatal: bool)
        ensures
            fatal == self@.is_fatal(),
    {
        match self {
            DriverError::RelayWriteFailed => false,
            _ => true,
        }
    }

    /// The one line that describes the failure to the user.
    pub fn message(&self) -> (text: String)
        ensures
            text@ == self@.message(),
    {
        match self {
            DriverError::MissingEnvironment => String::from_str("TMUX variable not found"),
            DriverError::DirectoryCreationFailed => String::from_str(
                "failed to create temporary directory",
            ),
            DriverError::PipeCreationFailed { path } => {
                let mut text = String::from_str("failed to create FIFO `");
                text.append(path.as_str());
                text.append("`");
                text
            },
            DriverError::LauncherSpawnFailed => String::from_str(
                "failed to execute `tmux` command",
            ),
            DriverError::PipeOpenFailed { path } => {
                let mut text = String::from_str("failed to open FIFO `");
                text.append(path.as_str());
                text.append("`");
                text
            },
            DriverError::RelayWriteFailed => String::from_str("failed to pipe standard input"),
            DriverError::RelayReadFailed => String::from_str("failed to copy standard output"),
            DriverError::ExitReadFailed => String::from_str("failed to read from exit code FIFO"),
            DriverError::InvalidExitEncoding => String::from_str(
                "failed to parse reported exit code: invalid string",
            ),
            DriverError::InvalidExitValue => String::from_str("failed to parse reported exit code"),
            DriverError::UnexpectedEvent => String::from_str("unexpected event"),
        }
    }
}

} // verus!
