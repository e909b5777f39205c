//! The `test` action: an answer to try the bot with.

use vstd::prelude::*;
use vstd::string::*;

use crate::reply::{ParseMode, Reply, ReplyModel};

verus! {

/// The action to try the bot with.
#[derive(Clone, Copy, Debug, PartialEq, Eq)]
pub struct Test;

impl Test {
    /// The action.
    pub fn new() -> Self {
        Test
    }

    /// The name by which the action is called.
    pub fn cmd(&self) -> (cmd: &'static str)
        ensures
            cmd@ == "test"@,
    {
        "test"
    }

    /// Whether the action is left out of the list of actions.
    pub fn hidden(&self) -> (hidden: bool)
        ensures
            hidden,
    {
        true
    }

    /// What the action does, in a few words.
    pub fn help(&self) -> (help: &'static str)
        ensures
            help@ == "Test command"@,
    {
        "Test command"
    }

    /// The answer to a call of the action.
    pub fn reply(&self) -> (reply: Reply)
        ensures
            reply@ == ReplyModel::formatted("<i>Jep... works on my machine!</i>"@, ParseMode::Html),
    {
        Reply::formatted(String::from_str("<i>Jep... works on my machine!</i>"), ParseMode::Html)
    }
}

} // verus!
