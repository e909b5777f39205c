//! The `ping` action: the bot answers.

use vstd::prelude::*;
use vstd::string::*;

use crate::reply::{Reply, ReplyModel};

verus! {

/// The action that shows that the bot is there.
#[derive(Clone, Copy, Debug, PartialEq, Eq)]
pub struct Ping;

impl Ping {
    /// The action.
    pub fn new() -> Self {
        Ping
    }

    /// The name by which the action is called.
    pub fn cmd(&self) -> (cmd: &'static str)
        ensures
            cmd@ == "ping"@,
    {
        "ping"
    }

    /// Whether the action is left out of the list of actions.
    pub fn hidden(&self) -> (hidden: bool)
        ensures
            !hidden,
    {
        false
    }

    /// What the action does, in a few words.
    pub fn help(&self) -> (help: &'static str)
        ensures
            help@ == "Ping RISC"@,
    {
        "Ping RISC"
    }

    /// The answer to a call of the action.
    pub fn reply(&self) -> (reply: Reply)
        ensures
            reply@ == ReplyModel::plain("Pong!"@),
    {
        Reply::plain(String::from_str("Pong!"))
    }
}

} // verus!
