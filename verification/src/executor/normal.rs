//! A command that runs as a child process: when the run is over, and how.
//!
//! Three things go on side by side while a child runs: its standard output
//! is read line by line, so is its standard error, and its end is waited
//! for. The run is over with the exit status once all three are done, and
//! over with an error as soon as one of them fails.

use vstd::prelude::*;

use super::{Error, ExitStatus};

verus! {

/// What has happened to a child process that runs.
#[derive(Debug)]
pub enum Event {
    /// Standard output has been read to its end, or reading it failed.
    Stdout(Result<(), std::io::Error>),
    /// Standard error has been read to its end, or reading it failed.
    Stderr(Result<(), std::io::Error>),
    /// The process has ended, or waiting for its end failed.
    Exit(Result<ExitStatus, std::io::Error>),
}

/// What an [`Execution`] stands for.
pub struct ExecutionModel {
    /// Whether standard output has been read to its end.
    pub stdout_done: bool,
    /// Whether standard error has been read to its end.
    pub stderr_done: bool,
    /// How the process ended, once it has.
    pub exit: Option<ExitStatus>,
    /// Whether the run is over.
    pub resolved: bool,
}

impl ExecutionModel {
    /// The run of a child that has just been started.
    pub open spec fn started() -> Self {
        ExecutionModel { stdout_done: false, stderr_done: false, exit: None, resolved: false }
    }

    /// Whether both streams are read and the process has ended.
    pub open spec fn all_done(self) -> bool {
        self.stdout_done && self.stderr_done && self.exit is Some
    }

    /// The run once `event` is taken note of, where it goes on.
    pub open spec fn noted(self, event: Event) -> Self {
        match event {
            Event::Stdout(_) => ExecutionModel { stdout_done: true, ..self },
            Event::Stderr(_) => ExecutionModel { stderr_done: true, ..self },
            Event::Exit(Ok(status)) => ExecutionModel {
                exit: if self.exit is Some {
                    self.exit
                } else {
                    Some(status)
                },
                ..self
            },
            Event::Exit(Err(_)) => self,
        }
    }

    /// The error that `event` brings, if it tells of a failure.
    pub open spec fn failure(event: Event) -> Option<Error> {
        match event {
            Event::Stdout(Err(cause)) => Some(Error::CollectOutput(cause)),
            Event::Stderr(Err(cause)) => Some(Error::CollectOutput(cause)),
            Event::Exit(Err(cause)) => Some(Error::Complete(cause)),
            _ => None,
        }
    }

    /// The run after `event`, and how it is over if it is over by this
    /// event. A run that is over takes note of nothing more.
    pub open spec fn on_event(self, event: Event) -> (Self, Option<Result<ExitStatus, Error>>) {
        if self.resolved {
            (self, None)
        } else if let Some(error) = Self::failure(event) {
            (ExecutionModel { resolved: true, ..self }, Some(Err(error)))
        } else if self.noted(event).all_done() {
            (
                ExecutionModel { resolved: true, ..self.noted(event) },
                Some(Ok(self.noted(event).exit->0)),
            )
        } else {
            (self.noted(event), None)
        }
    }
}

/// The run of a child process, as far as it has come.
#[derive(Debug)]
pub struct Execution {
    stdout_done: bool,
    stderr_done: bool,
    exit: Option<ExitStatus>,
    resolved: bool,
}

impl View for Execution {
    type V = ExecutionModel;

    closed spec fn view(&self) -> ExecutionModel {
        ExecutionModel {
            stdout_done: self.stdout_done,
            stderr_done: self.stderr_done,
            exit: self.exit,
            resolved: self.resolved,
        }
    }
}

impl Execution {
    /// The run of a child, from the attempt to start it: the child that
    /// was started and a run that goes on, or the error if none was.
    pub fn start<T>(spawned: Result<T, std::io::Error>) -> (run: Result<(T, Execution), Error>)
        ensures
            match spawned {
                Ok(child) => run matches Ok((started, execution)) && started == child
                    && execution@ == ExecutionModel::started(),
                Err(cause) => run matches Err(error) && error == Error::Spawn(cause),
            },
    {
        match spawned {
            Ok(child) => Ok(
                (
                    child,
                    Execution { stdout_done: false, stderr_done: false, exit: None, resolved: false },
                ),
            ),
            Err(cause) => Err(Error::Spawn(cause)),
        }
    }

    /// Whether the run is over.
    pub fn resolved(&self) -> (resolved: bool)
        ensures
            resolved == self@.resolved,
    {
        self.resolved
    }

    /// Takes note of `event`. Gives how the run is over if it is over by
    /// this event: with the exit status once both streams are read and the
    /// process has ended, with the error of the first failure.
    pub fn on_event(&mut self, event: Event) -> (outcome: Option<Result<ExitStatus, Error>>)
        ensures
            (final(self)@, outcome) == old(self)@.on_event(event),
    {
        if self.resolved {
            return None;
        }
        match event {
            Event::Stdout(Ok(_)) => {
                self.stdout_done = true;
            },
            Event::Stderr(Ok(_)) => {
                self.stderr_done = true;
            },
            Event::Exit(Ok(status)) => {
                if self.exit.is_none() {
                    self.exit = Some(status);
                }
            },
            Event::Stdout(Err(cause)) => {
                self.resolved = true;
                return Some(Err(Error::CollectOutput(cause)));
            },
            Event::Stderr(Err(cause)) => {
                self.resolved = true;
                return Some(Err(Error::CollectOutput(cause)));
            },
            Event::Exit(Err(cause)) => {
                self.resolved = true;
                return Some(Err(Error::Complete(cause)));
            },
        }
        if self.stdout_done && self.stderr_done {
            if let Some(status) = self.exit {
                self.resolved = true;
                return Some(Ok(status));
            }
        }
        None
    }
}

/// A run is over with the exit status by the event that completes the
/// three, and by no other; once it is over, no event changes it or ends it
/// again.
pub proof fn lemma_run_ends_once(run: ExecutionModel, event: Event)
    ensures
        run.resolved ==> run.on_event(event) == (run, None::<Result<ExitStatus, Error>>),
        run.on_event(event).1 is Some ==> run.on_event(event).0.resolved,
        run.on_event(event).1 matches Some(Ok(status)) ==> !run.resolved && run.noted(
            event,
        ).all_done() && ExecutionModel::failure(event) is None && run.noted(event).exit == Some(
            status,
        ),
        !run.resolved && ExecutionModel::failure(event) is Some ==> run.on_event(event).1 == Some(
            Err::<ExitStatus, Error>(ExecutionModel::failure(event)->0),
        ),
{
}

} // verus!
