//! The sandbox: the command line that runs a shell command in a container
//! with limits, and the output of a command that is collected as a whole.

use vstd::prelude::*;
use vstd::string::*;

use super::ExitStatus;
use crate::status::EXEC_TIMEOUT_SECS;
use crate::text::{decimal, join, joined, push_decimal, texts, u64_text};

verus! {

/// The seconds after which the sandbox kills a command that did not end
/// when its time was up.
pub const EXEC_KILL_AFTER_SECS: u64 = 305;

/// The seconds that the container runtime gives a container to stop.
pub const STOP_TIMEOUT_SECS: u64 = 1;

/// The most processes that a command may run at a time.
pub const PIDS_LIMIT: u64 = 64;

/// A program and its arguments.
#[derive(Clone, Debug, PartialEq, Eq)]
pub struct Command {
    program: String,
    args: Vec<String>,
}

/// What a [`Command`] stands for.
pub struct CommandModel {
    /// The program to run.
    pub program: Seq<char>,
    /// Its arguments, in order.
    pub args: Seq<Seq<char>>,
}

impl View for Command {
    type V = CommandModel;

    closed spec fn view(&self) -> CommandModel {
        CommandModel { program: self.program@, args: texts(self.args@) }
    }
}

/// The arguments that hand `reply_text` to the command as the variable
/// `REPLY`.
pub open spec fn reply_args(reply_text: Option<Seq<char>>) -> Seq<Seq<char>> {
    match reply_text {
        Some(text) => seq!["--env"@, "REPLY="@ + text],
        None => Seq::empty(),
    }
}

/// The command line that runs `cmd` in the sandbox: a container that is
/// removed afterwards and never restarted, with a fifth of a processor and
/// [`PIDS_LIMIT`] processes, in which `timeout` ends the shell after
/// [`EXEC_TIMEOUT_SECS`] seconds and kills it after [`EXEC_KILL_AFTER_SECS`].
pub open spec fn sandbox_command(cmd: Seq<char>, reply_text: Option<Seq<char>>) -> CommandModel {
    CommandModel {
        program: "docker"@,
        args: seq![
            "run"@,
            "--rm"@,
            "--workdir"@,
            "/root"@,
            "--restart"@,
            "no"@,
            "--stop-timeout"@,
            decimal(STOP_TIMEOUT_SECS as nat),
            "--cpus"@,
            "0.2"@,
            "--pids-limit"@,
            decimal(PIDS_LIMIT as nat),
        ] + reply_args(reply_text) + seq![
            "risc-exec"@,
            "timeout"@,
            "--signal=TERM"@,
            "--kill-after="@ + decimal(EXEC_KILL_AFTER_SECS as nat),
            decimal(EXEC_TIMEOUT_SECS as nat),
            "bash"@,
            "-c"@,
            cmd,
        ],
    }
}

impl Command {
    /// The program to run.
    pub fn program(&self) -> (program: &str)
        ensures
            program@ == self@.program,
    {
        self.program.as_str()
    }

    /// The arguments, in order.
    pub fn args(&self) -> (args: &Vec<String>)
        ensures
            texts(args@) == self@.args,
    {
        &self.args
    }
}

/// The command line that runs `cmd` in the sandbox, with `reply_text` in the
/// variable `REPLY` where there is one.
pub fn command(cmd: &str, reply_text: Option<&str>) -> (command: Command)
    ensures
        command@ == sandbox_command(
            cmd@,
            match reply_text {
                Some(text) => Some(text@),
                None => None,
            },
        ),
{
    let mut args: Vec<String> = Vec::new();
    args.push(String::from_str("run"));
    args.push(String::from_str("--rm"));
    args.push(String::from_str("--workdir"));
    args.push(String::from_str("/root"));
    args.push(String::from_str("--restart"));
    args.push(String::from_str("no"));
    args.push(String::from_str("--stop-timeout"));
    args.push(u64_text(STOP_TIMEOUT_SECS));
    args.push(String::from_str("--cpus"));
    args.push(String::from_str("0.2"));
    args.push(String::from_str("--pids-limit"));
    args.push(u64_text(PIDS_LIMIT));
    let ghost limits = texts(args@);
    match reply_text {
        Some(text) => {
            args.push(String::from_str("--env"));
            let mut variable = String::from_str("REPLY=");
            variable.append(text);
            args.push(variable);
        },
        None => {},
    }
    let ghost reply = reply_args(
        match reply_text {
            Some(text) => Some(text@),
            None => None,
        },
    );
    assert(texts(args@) =~= limits + reply);
    args.push(String::from_str("risc-exec"));
    args.push(String::from_str("timeout"));
    args.push(String::from_str("--signal=TERM"));
    let mut kill_after = String::from_str("--kill-after=");
    push_decimal(&mut kill_after, EXEC_KILL_AFTER_SECS);
    args.push(kill_after);
    args.push(u64_text(EXEC_TIMEOUT_SECS));
    args.push(String::from_str("bash"));
    args.push(String::from_str("-c"));
    args.push(String::from_str(cmd));
    let command = Command { program: String::from_str("docker"), args };
    assert(command@.args =~= sandbox_command(
        cmd@,
        match reply_text {
            Some(text) => Some(text@),
            None => None,
        },
    ).args);
    command
}

/// The lines that a command has written, kept whole.
#[derive(Clone, Debug)]
pub struct Collected {
    lines: Vec<String>,
}

impl View for Collected {
    type V = Seq<Seq<char>>;

    closed spec fn view(&self) -> Seq<Seq<char>> {
        texts(self.lines@)
    }
}

impl Collected {
    /// No line yet.
    pub fn new() -> (collected: Collected)
        ensures
            collected@ == Seq::<Seq<char>>::empty(),
    {
        let collected = Collected { lines: Vec::new() };
        assert(collected@ =~= Seq::<Seq<char>>::empty());
        collected
    }

    /// Keeps `line` as the last line.
    pub fn push_line(&mut self, line: &str)
        ensures
            final(self)@ == old(self)@.push(line@),
    {
        self.lines.push(String::from_str(line));
        assert(self@ =~= old(self)@.push(line@));
    }

    /// The lines that are kept, in the order in which they came, with a
    /// newline between each two neighbours.
    pub fn text(&self) -> (text: String)
        ensures
            text@ == joined(self@, "\n"@),
    {
        join(&self.lines, "\n")
    }

    /// All the output of a command that has ended, and how it ended.
    pub fn finish(self, status: ExitStatus) -> (result: (String, ExitStatus))
        ensures
            result.0@ == joined(self@, "\n"@),
            result.1 == status,
    {
        (self.text(), status)
    }
}

} // verus!
