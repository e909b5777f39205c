//! The `help` action: the list of the actions.

use vstd::prelude::*;
use vstd::string::*;

use super::all::All;
use super::duck::Duck;
use super::echo::Echo;
use super::exec::Exec;
use super::ping::Ping;
use super::retweet::Retweet;
use super::risc::Risc;
use super::start::Start;
use super::test::Test;
use crate::order::{sorted, sorted_texts};
use crate::reply::{ParseMode, Reply, ReplyModel};
use crate::text::{join, joined, texts};

verus! {

/// The line of the list for the action `cmd`, which does `help`.
pub open spec fn help_entry(cmd: Seq<char>, help: Seq<char>) -> Seq<char> {
    "/"@ + cmd + ": _"@ + help + "_"@
}

/// The lines of the actions that are not hidden.
pub open spec fn help_entries() -> Seq<Seq<char>> {
    seq![
        help_entry("all"@, "Mention all members"@),
        help_entry("duck"@, "Search using DuckDuckGo"@),
        help_entry("exec"@, "Execute a shell command"@),
        help_entry("help"@, "Show help"@),
        help_entry("ping"@, "Ping RISC"@),
        help_entry("rt"@, "Retweet a message"@),
        help_entry("risc"@, "RISC info"@),
    ]
}

/// The list of the actions that are not hidden: their lines in order,
/// one below the other.
pub open spec fn help_list() -> Seq<char> {
    joined(sorted_texts(help_entries()), "\n"@)
}

fn list_action(list: &mut Vec<String>, cmd: &str, help: &str, hidden: bool)
    ensures
        texts(final(list)@) == (if hidden {
            texts(old(list)@)
        } else {
            texts(old(list)@).push(help_entry(cmd@, help@))
        }),
{
    if !hidden {
        let mut entry = String::from_str("/");
        entry.append(cmd);
        entry.append(": _");
        entry.append(help);
        entry.append("_");
        list.push(entry);
        assert(texts(list@) =~= texts(old(list)@).push(help_entry(cmd@, help@)));
    }
}

/// The list of the actions that are not hidden.
pub fn build_help_list() -> (list: String)
    ensures
        list@ == help_list(),
{
    let mut cmds: Vec<String> = Vec::new();
    assert(texts(cmds@) =~= Seq::<Seq<char>>::empty());
    list_action(&mut cmds, All::new().cmd(), All::new().help(), All::new().hidden());
    list_action(&mut cmds, Duck::new().cmd(), Duck::new().help(), Duck::new().hidden());
    list_action(&mut cmds, Echo::new().cmd(), Echo::new().help(), Echo::new().hidden());
    list_action(&mut cmds, Exec::new().cmd(), Exec::new().help(), Exec::new().hidden());
    list_action(&mut cmds, Help::new().cmd(), Help::new().help(), Help::new().hidden());
    list_action(&mut cmds, Ping::new().cmd(), Ping::new().help(), Ping::new().hidden());
    list_action(&mut cmds, Retweet::new().cmd(), Retweet::new().help(), Retweet::new().hidden());
    list_action(&mut cmds, Risc::new().cmd(), Risc::new().help(), Risc::new().hidden());
    list_action(&mut cmds, Start::new().cmd(), Start::new().help(), Start::new().hidden());
    list_action(&mut cmds, Test::new().cmd(), Test::new().help(), Test::new().hidden());
    assert(texts(cmds@) =~= help_entries());
    let cmds = sorted(cmds);
    join(&cmds, "\n")
}

/// The action that lists the actions.
#[derive(Clone, Copy, Debug, PartialEq, Eq)]
pub struct Help;

impl Help {
    /// The action.
    pub fn new() -> Self {
        Help
    }

    /// The name by which the action is called.
    pub fn cmd(&self) -> (cmd: &'static str)
        ensures
            cmd@ == "help"@,
    {
        "help"
    }

    /// Whether the action is left out of the list of actions.
    pub fn hidden(&self) -> (hidden: bool)
        ensures
            !hidden,
    {
        false
    }

    /// What the action does, in a few words.
    pub fn help(&self) -> (help: &'static str)
        ensures
            help@ == "Show help"@,
    {
        "Show help"
    }

    /// The answer to a call of the action: the list of the actions under
    /// a heading.
    pub fn reply(&self) -> (reply: Reply)
        ensures
            reply@ == ReplyModel::formatted("*RISC commands:*\n"@ + help_list(), ParseMode::Markdown),
    {
        let mut text = String::from_str("*RISC commands:*\n");
        let list = build_help_list();
        text.append(list.as_str());
        Reply::formatted(text, ParseMode::Markdown)
    }
}

} // verus!
