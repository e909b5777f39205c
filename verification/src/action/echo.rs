//! The `echo` action: the bot says what the user has put in.

use vstd::prelude::*;

use crate::message::{Message, MessageKind};
use crate::reply::{reply_view, ParseMode, Reply, ReplyModel};
use crate::text::{input, input_of};

verus! {

/// The action that says what the user has put in.
#[derive(Clone, Copy, Debug, PartialEq, Eq)]
pub struct Echo;

impl Echo {
    /// The action.
    pub fn new() -> Self {
        Echo
    }

    /// The name by which the action is called.
    pub fn cmd(&self) -> (cmd: &'static str)
        ensures
            cmd@ == "echo"@,
    {
        "echo"
    }

    /// Whether the action is left out of the list of actions.
    pub fn hidden(&self) -> (hidden: bool)
        ensures
            hidden,
    {
        true
    }

    /// What the action does, in a few words.
    pub fn help(&self) -> (help: &'static str)
        ensures
            help@ == "Echo user input as Markdown"@,
    {
        "Echo user input as Markdown"
    }

    /// The answer to the message that calls the action: to a text
    /// message, what stands behind its first word, read as Markdown; none to
    /// any other message.
    pub open spec fn reply_to(msg: Message) -> Option<ReplyModel> {
        match msg.kind {
            MessageKind::Text { data } => Some(
                ReplyModel::formatted(input_of(data@), ParseMode::Markdown),
            ),
            _ => None,
        }
    }

    /// The answer to the message that calls the action.
    pub fn reply(&self, msg: &Message) -> (reply: Option<Reply>)
        ensures
            reply_view(reply) == Self::reply_to(*msg),
    {
        match &msg.kind {
            MessageKind::Text { data } => Some(
                Reply::formatted(input(data.as_str()), ParseMode::Markdown),
            ),
            _ => None,
        }
    }
}

} // verus!
