//! The rendezvous set: three named pipes in one private directory.
//!
//! The driver writes the picker's input to `in`, reads its output from `out` and
//! its exit status from `ret`. This module names the pipes and judges the outcome
//! of creating one; creating them is left to the caller.

use vstd::prelude::*;
use vstd::string::{StrSliceExecFns, StringExecFns, StringSliceAdditionalSpecFns};
use crate::error::{DriverError, ErrorView};

verus! {

/// Permissions of the private directory: the owner may list, change and enter
/// it, others nothing.
pub const DIRECTORY_MODE: u32 = 0o700;

/// Permissions of each pipe: read, write and execute for the owner, nothing for others.
pub const PIPE_MODE: u32 = 0o700;

/// One of the three pipes.
#[derive(Debug, Clone, Copy, PartialEq, Eq, Structural)]
pub enum Pipe {
    /// Carries the driver's input to the picker.
    Input,
    /// Carries the picker's output to the driver.
    Output,
    /// Carries the picker's exit status to the driver.
    Status,
}

impl Pipe {
    /// The pipe that is created after this one, if any: input, output, status.
    pub open spec fn successor(self) -> Option<Pipe> {
        match self {
            Pipe::Input => Some(Pipe::Output),
            Pipe::Output => Some(Pipe::Status),
            Pipe::Status => None,
        }
    }

    /// The pipe that is created after this one, if any.
    pub fn next(self) -> (next: Option<Pipe>)
        ensures
            next == self.successor(),
    {
        match self {
            Pipe::Input => Some(Pipe::Output),
            Pipe::Output => Some(Pipe::Status),
            Pipe::Status => None,
        }
    }
}

/// The paths of the three pipes.
#[derive(Debug, PartialEq, Eq)]
pub struct RendezvousSet {
    /// Carries the driver's input to the picker.
    pub input: String,
    /// Carries the picker's output to the driver.
    pub output: String,
    /// Carries the picker's exit status to the driver.
    pub status: String,
}

/// The mathematical content of a [`RendezvousSet`].
pub struct RendezvousView {
    pub input: Seq<char>,
    pub output: Seq<char>,
    pub status: Seq<char>,
}

impl View for RendezvousSet {
    type V = RendezvousView;

    open spec fn view(&self) -> RendezvousView {
        RendezvousView { input: self.input@, output: self.output@, status: self.status@ }
    }
}

/// The path of the entry `name` of `directory`. One separator is put between the
/// two unless `directory` is empty or ends in one.
pub open spec fn child_path(directory: Seq<char>, name: Seq<char>) -> Seq<char> {
    if directory.len() == 0 {
        name
    } else if directory.last() == '/' {
        directory + name
    } else {
        directory + seq!['/'] + name
    }
}

impl RendezvousView {
    /// The set whose pipes are the entries `in`, `out` and `ret` of `directory`.
    pub open spec fn in_directory(directory: Seq<char>) -> RendezvousView {
        RendezvousView {
            input: child_path(directory, "in"@),
            output: child_path(directory, "out"@),
            status: child_path(directory, "ret"@),
        }
    }

    /// The path of `pipe`.
    pub open spec fn path(self, pipe: Pipe) -> Seq<char> {
        match pipe {
            Pipe::Input => self.input,
            Pipe::Output => self.output,
            Pipe::Status => self.status,
        }
    }
}

/// The path of the entry `name` of `directory`.
pub fn join(directory: &str, name: &str) -> (path: String)
    ensures
        path@ == child_path(directory@, name@),
{
    let mut path = String::from_str(directory);
    let len = directory.unicode_len();
    if len > 0 && directory.get_char(len - 1) != '/' {
        proof {
            reveal_strlit("/");
        }
        path.append("/");
        assert(path@ =~= directory@ + seq!['/']);
    }
    path.append(name);
    path
}

impl RendezvousSet {
    /// Names the three pipes of `directory`. All three are entries of that one directory.
    pub fn in_directory(directory: &str) -> (set: RendezvousSet)
        ensures
            set@ == RendezvousView::in_directory(directory@),
    {
        RendezvousSet {
            input: join(directory, "in"),
            output: join(directory, "out"),
            status: join(directory, "ret"),
        }
    }

    /// The path of `pipe`.
    pub fn path(&self, pipe: Pipe) -> (path: &String)
        ensures
            path@ == self@.path(pipe),
    {
        match pipe {
            Pipe::Input => &self.input,
            Pipe::Output => &self.output,
            Pipe::Status => &self.status,
        }
    }
}

/// The bytes of `path` followed by one zero byte: the form in which the system
/// call that creates a pipe takes a path.
pub fn nul_terminated(path: &str) -> (bytes: Vec<u8>)
    ensures
        bytes@ == path.spec_bytes().push(0u8),
{
    let mut bytes = path.as_bytes_vec();
    bytes.push(0u8);
    bytes
}

/// What the status that the system reported for creating the pipe at `path` means.
pub open spec fn pipe_outcome_of(status: int, path: Seq<char>) -> Result<(), ErrorView> {
    if status == 0 {
        Ok(())
    } else {
        Err(ErrorView::PipeCreationFailed { path })
    }
}

/// Judges the status that the system reported for creating the pipe at `path`:
/// zero is success, anything else a failure that names the path.
pub fn pipe_outcome(status: i32, path: &str) -> (outcome: Result<(), DriverError>)
    ensures
        match outcome {
            Ok(()) => pipe_outcome_of(status as int, path@) == Ok::<(), ErrorView>(()),
            Err(e) => pipe_outcome_of(status as int, path@) == Err::<(), ErrorView>(e@),
        },
{
    if status == 0 {
        Ok(())
    } else {
        Err(DriverError::PipeCreationFailed { path: String::from_str(path) })
    }
}

} // verus!
