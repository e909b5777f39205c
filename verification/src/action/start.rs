//! The `start` action: a welcome to a user who starts to talk to the bot.

use vstd::prelude::*;
use vstd::string::*;

use super::help::{build_help_list, help_list};
use crate::message::{Message, MessageChat, MessageKind};
use crate::reply::{reply_view, ParseMode, Reply, ReplyModel};

verus! {

/// The welcome to the user `first_name`.
pub open spec fn welcome(first_name: Seq<char>) -> Seq<char> {
    "*Welcome "@ + first_name
        + "!*\n\nThis bot adds useful features to Telegram such as message stats tracking, and is intended to be used in group chats. Add @riscbot to a group chat to start using it.\n\nYou may choose one of the following commands to try it out:\n\n"@
        + help_list() + "\n                        "@
}

/// The action that welcomes a user.
#[derive(Clone, Copy, Debug, PartialEq, Eq)]
pub struct Start;

impl Start {
    /// The action.
    pub fn new() -> Self {
        Start
    }

    /// The name by which the action is called.
    pub fn cmd(&self) -> (cmd: &'static str)
        ensures
            cmd@ == "start"@,
    {
        "start"
    }

    /// Whether the action is left out of the list of actions.
    pub fn hidden(&self) -> (hidden: bool)
        ensures
            hidden,
    {
        true
    }

    /// What the action does, in a few words.
    pub fn help(&self) -> (help: &'static str)
        ensures
            help@ == "Start using RISC"@,
    {
        "Start using RISC"
    }

    /// The answer to the message that calls the action: the welcome to
    /// its sender; none to a text message in a chat that is not private.
    pub open spec fn reply_to(msg: Message) -> Option<ReplyModel> {
        if msg.kind is Text && msg.chat != MessageChat::Private {
            None
        } else {
            Some(ReplyModel::formatted(welcome(msg.from.first_name@), ParseMode::Markdown))
        }
    }

    /// The answer to the message that calls the action.
    pub fn reply(&self, msg: &Message) -> (reply: Option<Reply>)
        ensures
            reply_view(reply) == Self::reply_to(*msg),
    {
        match &msg.kind {
            MessageKind::Text { .. } => match msg.chat {
                MessageChat::Private => {},
                _ => {
                    return None;
                },
            },
            _ => {},
        }
        let mut text = String::from_str("*Welcome ");
        text.append(msg.from.first_name.as_str());
        text.append(
            "!*\n\nThis bot adds useful features to Telegram such as message stats tracking, and is intended to be used in group chats. Add @riscbot to a group chat to start using it.\n\nYou may choose one of the following commands to try it out:\n\n",
        );
        let list = build_help_list();
        text.append(list.as_str());
        text.append("\n                        ");
        Some(Reply::formatted(text, ParseMode::Markdown))
    }
}

} // verus!
