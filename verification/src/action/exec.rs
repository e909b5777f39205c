//! The `exec` action: a command runs in the sandbox while a ticker calls for
//! throttled updates of its status, and one last update follows its end.

use vstd::prelude::*;
use vstd::string::*;

use crate::executor::isolated::{command, sandbox_command, Command};
use crate::executor::ExitStatus;
use crate::render::text_view;
use crate::status::{ExecStatus, StatusModel};
use crate::text::{input, input_of};
use crate::time::Timestamp;

verus! {

/// The action that runs a shell command for a user.
#[derive(Clone, Copy, Debug, PartialEq, Eq)]
pub struct Exec;

impl Exec {
    /// The action.
    pub fn new() -> Self {
        Exec
    }

    /// The name by which the action is called.
    pub fn cmd(&self) -> (cmd: &'static str)
        ensures
            cmd@ == "exec"@,
    {
        "exec"
    }

    /// Whether the action is left out of the list of actions.
    pub fn hidden(&self) -> (hidden: bool)
        ensures
            !hidden,
    {
        false
    }

    /// What the action does, in a few words.
    pub fn help(&self) -> (help: &'static str)
        ensures
            help@ == "Execute a shell command"@,
    {
        "Execute a shell command"
    }

    /// What to do with the message `data` that calls the action: to run the
    /// command that stands behind the first word, or to tell how the action
    /// is used where nothing stands there.
    pub fn invocation(data: &str) -> (invocation: Invocation)
        ensures
            invocation@ == (if input_of(data@).len() == 0 {
                InvocationModel::Usage
            } else {
                InvocationModel::Run(input_of(data@))
            }),
    {
        let cmd = input(data);
        if cmd.as_str().unicode_len() == 0 {
            Invocation::Usage
        } else {
            Invocation::Run(cmd)
        }
    }

    /// The text that tells how the action is used.
    pub fn usage() -> (usage: &'static str)
        ensures
            usage@ == "Please provide a command to run.\n\nFor example:\n`/exec echo Hello!`"@,
    {
        "Please provide a command to run.\n\nFor example:\n`/exec echo Hello!`"
    }
}

/// What a message that calls the action asks for.
#[derive(Clone, Debug, PartialEq, Eq)]
pub enum Invocation {
    /// No command was given: the user is to be told how the action is used.
    Usage,
    /// This command is to be run.
    Run(String),
}

/// What an [`Invocation`] stands for.
pub enum InvocationModel {
    /// No command was given.
    Usage,
    /// This command is to be run.
    Run(Seq<char>),
}

impl View for Invocation {
    type V = InvocationModel;

    open spec fn view(&self) -> InvocationModel {
        match *self {
            Invocation::Usage => InvocationModel::Usage,
            Invocation::Run(cmd) => InvocationModel::Run(cmd@),
        }
    }
}

/// How the action can fail. `E` is the error of the chat.
#[derive(Debug)]
pub enum Error<E> {
    /// The help text, which goes out when no command was given, could not be
    /// sent.
    Help(E),
    /// The message that shows the status could not be set up: the chat
    /// failed, or it gave no message back.
    StatusMessage(Option<E>),
    /// Running the command failed.
    Execute(crate::executor::Error),
}

impl<E> Error<E> {
    /// What went wrong, in words.
    pub fn message(&self) -> (message: &'static str)
        ensures
            message@ == (match *self {
                Error::Help(_) => "failed to send help response message"@,
                Error::StatusMessage(_) => "failed to send command status message"@,
                Error::Execute(_) => "failed to execute user shell command"@,
            }),
    {
        match self {
            Error::Help(_) => "failed to send help response message",
            Error::StatusMessage(_) => "failed to send command status message",
            Error::Execute(_) => "failed to execute user shell command",
        }
    }
}

impl<H> ExecStatus<H> {
    /// The status of a command that starts at `now`, from what the chat
    /// answered when the message that shows the status was sent: the status
    /// if there is such a message, else the error.
    pub fn create_status_msg_at<E>(response: Result<Option<H>, E>, now: Timestamp) -> (created:
        Result<ExecStatus<H>, Error<E>>)
        ensures
            match response {
                Ok(Some(status_msg)) => created matches Ok(status) && status@ == StatusModel::fresh(
                    status_msg,
                    now@,
                ),
                Ok(None) => created matches Err(error) && error == Error::<E>::StatusMessage(None),
                Err(cause) => created matches Err(error) && error == Error::StatusMessage(
                    Some(cause),
                ),
            },
    {
        match response {
            Ok(Some(status_msg)) => Ok(ExecStatus::new_at(status_msg, now)),
            Ok(None) => Err(Error::StatusMessage(None)),
            Err(cause) => Err(Error::StatusMessage(Some(cause))),
        }
    }

    /// The status of a command that starts now, from what the chat answered
    /// when the message that shows the status was sent.
    pub fn create_status_msg<E>(response: Result<Option<H>, E>) -> (created: Result<
        ExecStatus<H>,
        Error<E>,
    >)
        ensures
            match response {
                Ok(Some(status_msg)) => created matches Ok(status) && exists|now: nat|
                    status@ == #[trigger] StatusModel::fresh(status_msg, now),
                Ok(None) => created matches Err(error) && error == Error::<E>::StatusMessage(None),
                Err(cause) => created matches Err(error) && error == Error::StatusMessage(
                    Some(cause),
                ),
            },
    {
        match response {
            Ok(Some(status_msg)) => Ok(ExecStatus::new(status_msg)),
            Ok(None) => Err(Error::StatusMessage(None)),
            Err(cause) => Err(Error::StatusMessage(Some(cause))),
        }
    }
}

/// The time from one tick of the ticker to the next, in milliseconds.
pub const TICK_MILLIS: u64 = 1000;

/// What was sent to the chat.
#[derive(Clone, Copy, Debug, PartialEq, Eq, Structural)]
pub enum Sending {
    /// The text that tells how the action is used.
    Usage,
    /// An update of the status while the command runs.
    Update,
    /// The last update of the status.
    LastUpdate,
}

/// What the action makes of an attempt to send: an update that did not
/// arrive while the command runs is let go, so that a chat that falters does
/// not end the command; the text on usage and the last update have to
/// arrive, and their failure is that of the action.
pub fn sent<E>(what: Sending, attempt: Result<(), E>) -> (outcome: Result<(), Error<E>>)
    ensures
        outcome == (match attempt {
            Ok(_) => Ok::<(), Error<E>>(()),
            Err(cause) => match what {
                Sending::Usage => Err(Error::Help(cause)),
                Sending::Update => Ok(()),
                Sending::LastUpdate => Err(Error::StatusMessage(Some(cause))),
            },
        }),
{
    match attempt {
        Ok(_) => Ok(()),
        Err(cause) => match what {
            Sending::Usage => Err(Error::Help(cause)),
            Sending::Update => Ok(()),
            Sending::LastUpdate => Err(Error::StatusMessage(Some(cause))),
        },
    }
}

/// How far a run has come.
#[derive(Clone, Copy, Debug, PartialEq, Eq, Structural)]
pub enum Phase {
    /// The command runs, and the ticker calls for updates.
    Racing,
    /// The race is over and the last update has been handed out.
    Flushed,
    /// Running the command failed. No update follows.
    Failed,
}

/// What an [`ExecRun`] stands for.
pub struct RunModel<H> {
    /// The status of the command.
    pub status: StatusModel<H>,
    /// How far the run has come.
    pub phase: Phase,
}

/// The text of an update that had to go out, or the error of a run that
/// failed, with the text as its view.
pub open spec fn flush_view<E>(flush: Result<Option<String>, Error<E>>) -> Result<
    Option<Seq<char>>,
    Error<E>,
> {
    match flush {
        Ok(text) => Ok(text_view(text)),
        Err(error) => Err(error),
    }
}

impl<H> RunModel<H> {
    /// A command that races has not ended.
    pub open spec fn wf(self) -> bool {
        self.phase == Phase::Racing ==> !self.status.completed()
    }

    /// The run of a command that starts at `now`.
    pub open spec fn started(status_msg: H, now: nat) -> Self {
        RunModel { status: StatusModel::fresh(status_msg, now), phase: Phase::Racing }
    }

    /// The run after the command has written `line`.
    pub open spec fn line(self, line: Seq<u8>) -> Self {
        if self.phase == Phase::Racing {
            RunModel { status: self.status.append_line(line), ..self }
        } else {
            self
        }
    }

    /// The run after a tick at `now`, and the text to send.
    pub open spec fn tick(self, now: nat) -> (Self, Option<Seq<char>>) {
        if self.phase == Phase::Racing {
            (
                RunModel { status: self.status.update_throttled(now).0, ..self },
                self.status.update_throttled(now).1,
            )
        } else {
            (self, None)
        }
    }

    /// The run after the ticker has stopped at `now`, and the text of the
    /// last update.
    pub open spec fn ticker_stopped(self, now: nat) -> (Self, Option<Seq<char>>) {
        if self.phase == Phase::Racing {
            (
                RunModel { status: self.status.update(now).0, phase: Phase::Flushed },
                self.status.update(now).1,
            )
        } else {
            (self, None)
        }
    }

    /// The run after the command is over at `now`, and the text of the
    /// last update, or the error.
    pub open spec fn finish<E>(self, outcome: Result<ExitStatus, crate::executor::Error>, now: nat)
        -> (Self, Result<Option<Seq<char>>, Error<E>>) {
        if self.phase == Phase::Racing {
            match outcome {
                Ok(exit) => (
                    RunModel {
                        status: self.status.set_status(exit, now).update(now).0,
                        phase: Phase::Flushed,
                    },
                    Ok(self.status.set_status(exit, now).update(now).1),
                ),
                Err(error) => (RunModel { phase: Phase::Failed, ..self }, Err(
                    Error::Execute(error),
                )),
            }
        } else {
            (self, Ok(None))
        }
    }
}

/// The run of one command, from the message that shows its status to the
/// last update.
pub struct ExecRun<H> {
    status: ExecStatus<H>,
    phase: Phase,
}

impl<H> View for ExecRun<H> {
    type V = RunModel<H>;

    closed spec fn view(&self) -> RunModel<H> {
        RunModel { status: self.status@, phase: self.phase }
    }
}

impl<H> ExecRun<H> {
    /// Starts a run at `now`, from what the chat answered when the message
    /// that shows the status was sent: the run and the command line for the
    /// sandbox if there is such a message, else the error.
    pub fn start<E>(
        response: Result<Option<H>, E>,
        cmd: &str,
        reply_text: Option<&str>,
        now: Timestamp,
    ) -> (started: Result<(ExecRun<H>, Command), Error<E>>)
        ensures
            match response {
                Ok(Some(status_msg)) => started matches Ok((run, line)) && run@
                    == RunModel::started(status_msg, now@) && line@ == sandbox_command(
                    cmd@,
                    match reply_text {
                        Some(text) => Some(text@),
                        None => None,
                    },
                ),
                Ok(None) => started matches Err(error) && error == Error::<E>::StatusMessage(None),
                Err(cause) => started matches Err(error) && error == Error::StatusMessage(
                    Some(cause),
                ),
            },
    {
        match ExecStatus::create_status_msg_at(response, now) {
            Ok(status) => Ok((ExecRun { status, phase: Phase::Racing }, command(cmd, reply_text))),
            Err(error) => Err(error),
        }
    }

    /// How far the run has come.
    pub fn phase(&self) -> (phase: Phase)
        ensures
            phase == self@.phase,
    {
        self.phase
    }

    /// The status of the command.
    pub fn status(&self) -> (status: &ExecStatus<H>)
        ensures
            status@ == self@.status,
    {
        &self.status
    }

    /// Takes in a line that the command has written.
    pub fn line(&mut self, line: &str)
        ensures
            final(self)@ == old(self)@.line(line.spec_bytes()),
    {
        match self.phase {
            Phase::Racing => {
                self.status.append_line(line);
            },
            _ => {},
        }
    }

    /// Takes a tick of the ticker at `now`. Gives the text to send if
    /// anything has changed and the throttle delay has passed. Whether it
    /// arrives is of no concern to the run.
    pub fn tick(&mut self, now: Timestamp) -> (text: Option<String>)
        ensures
            (final(self)@, text_view(text)) == old(self)@.tick(now@),
    {
        match self.phase {
            Phase::Racing => self.status.update_throttled_at(now),
            _ => None,
        }
    }

    /// Ends the race because the ticker has stopped at `now`. Gives the
    /// text of the last update to send, if anything has changed.
    pub fn ticker_stopped(&mut self, now: Timestamp) -> (text: Option<String>)
        ensures
            (final(self)@, text_view(text)) == old(self)@.ticker_stopped(now@),
    {
        match self.phase {
            Phase::Racing => {
                self.phase = Phase::Flushed;
                self.status.update_at(now)
            },
            _ => None,
        }
    }

    /// Ends the race because the command is over at `now`. Of a command
    /// that has ended, records the exit status and gives the text of the
    /// last update, which must go out whatever the throttle says; of one
    /// that could not be run, gives the error, and no update follows.
    pub fn finish<E>(&mut self, outcome: Result<ExitStatus, crate::executor::Error>, now: Timestamp)
        -> (flush: Result<Option<String>, Error<E>>)
        ensures
            (final(self)@, flush_view(flush)) == old(self)@.finish::<E>(outcome, now@),
    {
        match self.phase {
            Phase::Racing => {},
            _ => {
                return Ok(None);
            },
        }
        match outcome {
            Ok(exit) => {
                self.phase = Phase::Flushed;
                self.status.set_status_at(exit, now);
                Ok(self.status.update_at(now))
            },
            Err(error) => {
                self.phase = Phase::Failed;
                Err(Error::Execute(error))
            },
        }
    }
}

/// The command that ends while the race is on gets its last update: the
/// text of the status with the exit status in it goes out, and nothing is
/// left to tell.
pub proof fn lemma_end_is_flushed<H, E>(run: RunModel<H>, exit: ExitStatus, now: nat)
    requires
        run.wf(),
        run.phase == Phase::Racing,
    ensures
        run.finish::<E>(Ok(exit), now).1 == Ok::<Option<Seq<char>>, Error<E>>(
            Some(run.status.set_status(exit, now).render()),
        ),
        run.finish::<E>(Ok(exit), now).0.phase == Phase::Flushed,
        run.finish::<E>(Ok(exit), now).0.status.status == Some(exit),
        !run.finish::<E>(Ok(exit), now).0.status.changed,
{
}

/// A run that could not go on sends nothing: the error comes back, and the
/// status stays as it was.
pub proof fn lemma_failure_sends_nothing<H, E>(
    run: RunModel<H>,
    error: crate::executor::Error,
    now: nat,
)
    requires
        run.phase == Phase::Racing,
    ensures
        run.finish::<E>(Err(error), now).1 == Err::<Option<Seq<char>>, Error<E>>(
            Error::Execute(error),
        ),
        run.finish::<E>(Err(error), now).0.phase == Phase::Failed,
        run.finish::<E>(Err(error), now).0.status == run.status,
{
}

/// Once the race is over nothing changes and no text goes out, whatever
/// comes in.
pub proof fn lemma_nothing_after_the_end<H, E>(
    run: RunModel<H>,
    line: Seq<u8>,
    outcome: Result<ExitStatus, crate::executor::Error>,
    now: nat,
)
    requires
        run.phase != Phase::Racing,
    ensures
        run.line(line) == run,
        run.tick(now) == (run, None::<Seq<char>>),
        run.ticker_stopped(now) == (run, None::<Seq<char>>),
        run.finish::<E>(outcome, now) == (run, Ok::<Option<Seq<char>>, Error<E>>(None)),
{
}

/// Every step keeps a command that races from having ended, and leaves the
/// race only for good.
pub proof fn lemma_run_stays_well_formed<H, E>(
    run: RunModel<H>,
    line: Seq<u8>,
    outcome: Result<ExitStatus, crate::executor::Error>,
    now: nat,
)
    requires
        run.wf(),
    ensures
        RunModel::started(run.status.status_msg, now).wf(),
        run.line(line).wf(),
        run.tick(now).0.wf(),
        run.ticker_stopped(now).0.wf(),
        run.finish::<E>(outcome, now).0.wf(),
        run.line(line).phase == run.phase,
        run.tick(now).0.phase == run.phase,
        run.ticker_stopped(now).0.phase != Phase::Racing,
        run.finish::<E>(outcome, now).0.phase != Phase::Racing,
{
}

} // verus!
