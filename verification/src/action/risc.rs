//! The `risc` action: what the bot is, and where it comes from.

use vstd::prelude::*;
use vstd::string::*;

use crate::reply::{ParseMode, Reply, ReplyModel};

verus! {

/// The text that tells of the bot `name` in the version `version`.
pub open spec fn info(name: Seq<char>, version: Seq<char>) -> Seq<char> {
    "`"@ + name + " v"@ + version
        + "`\n\nDeveloped by @timvisee\nhttps://timvisee.com/\n\nSource:\nhttps://gitlab.com/timvisee/risc-bot"@
}

/// The action that tells of the bot.
#[derive(Clone, Copy, Debug, PartialEq, Eq)]
pub struct Risc;

impl Risc {
    /// The action.
    pub fn new() -> Self {
        Risc
    }

    /// The name by which the action is called.
    pub fn cmd(&self) -> (cmd: &'static str)
        ensures
            cmd@ == "risc"@,
    {
        "risc"
    }

    /// Whether the action is left out of the list of actions.
    pub fn hidden(&self) -> (hidden: bool)
        ensures
            !hidden,
    {
        false
    }

    /// What the action does, in a few words.
    pub fn help(&self) -> (help: &'static str)
        ensures
            help@ == "RISC info"@,
    {
        "RISC info"
    }

    /// The answer to a call of the action, for the bot `name` in the version
    /// `version`.
    pub fn reply(&self, name: &str, version: &str) -> (reply: Reply)
        ensures
            reply@ == ReplyModel::formatted(info(name@, version@), ParseMode::Markdown),
    {
        let mut text = String::from_str("`");
        text.append(name);
        text.append(" v");
        text.append(version);
        text.append(
            "`\n\nDeveloped by @timvisee\nhttps://timvisee.com/\n\nSource:\nhttps://gitlab.com/timvisee/risc-bot",
        );
        Reply::formatted(text, ParseMode::Markdown)
    }
}

} // verus!
