//! Running a command as a child process: how it ended, and how running it
//! can fail.

use vstd::prelude::*;

pub mod isolated;
pub mod normal;

verus! {

/// The error type of `std::io`, of which nothing is read here: it is
/// carried from where a failure came up to where it is reported.
#[verifier::external_type_specification]
#[verifier::external_body]
pub struct ExIoError(std::io::Error);

/// How running a command can fail.
#[derive(Debug)]
pub enum Error {
    /// The child process could not be started.
    Spawn(std::io::Error),
    /// An output stream of the process could not be read.
    CollectOutput(std::io::Error),
    /// Waiting for the process to end failed.
    Complete(std::io::Error),
}

impl Error {
    /// What went wrong, in words.
    pub fn message(&self) -> (message: &'static str)
        ensures
            message@ == (match *self {
                Error::Spawn(_) => "failed to spawn child process"@,
                Error::CollectOutput(_) => "failed to read an output stream"@,
                Error::Complete(_) => "failed to wait for process completion"@,
            }),
    {
        match self {
            Error::Spawn(_) => "failed to spawn child process",
            Error::CollectOutput(_) => "failed to read an output stream",
            Error::Complete(_) => "failed to wait for process completion",
        }
    }
}

/// How a child process ended.
#[derive(Clone, Copy, Debug, PartialEq, Eq, Structural)]
pub enum ExitStatus {
    /// The process exited by itself, with this code.
    Exited(i32),
    /// A signal with this number ended the process.
    Signaled(i32),
}

impl ExitStatus {
    /// Whether the process exited with code zero.
    pub open spec fn spec_success(&self) -> bool {
        *self == ExitStatus::Exited(0)
    }

    /// The exit code, if the process exited by itself.
    pub open spec fn spec_code(&self) -> Option<i32> {
        match *self {
            ExitStatus::Exited(code) => Some(code),
            ExitStatus::Signaled(_) => None,
        }
    }

    /// Whether the process exited with code zero.
    #[verifier::when_used_as_spec(spec_success)]
    pub fn success(&self) -> (success: bool)
        ensures
            success == self.spec_success(),
    {
        match *self {
            ExitStatus::Exited(code) => code == 0,
            ExitStatus::Signaled(_) => false,
        }
    }

    /// The exit code, if the process exited by itself.
    #[verifier::when_used_as_spec(spec_code)]
    pub fn code(&self) -> (code: Option<i32>)
        ensures
            code == self.spec_code(),
    {
        match *self {
            ExitStatus::Exited(code) => Some(code),
            ExitStatus::Signaled(_) => None,
        }
    }
}

} // verus!
