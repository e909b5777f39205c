//! What the bot answers to a message.

use vstd::prelude::*;

verus! {

/// How the chat is to read the text of an answer.
#[derive(Clone, Copy, Debug, PartialEq, Eq, Structural)]
pub enum ParseMode {
    /// As Markdown.
    Markdown,
    /// As HTML.
    Html,
}

/// The message that an answer replies to.
#[derive(Clone, Copy, Debug, PartialEq, Eq, Structural)]
pub enum Target {
    /// The message that called for the answer.
    Message,
    /// The message that the calling message replies to.
    RepliedTo,
}

/// An answer of the bot.
#[derive(Debug, PartialEq, Eq)]
pub struct Reply {
    /// The text of the answer.
    pub text: String,
    /// How the chat is to read the text; as plain text if nothing is said.
    pub parse_mode: Option<ParseMode>,
    /// The message that the answer replies to.
    pub target: Target,
    /// Whether the answer comes without a sound.
    pub disable_notification: bool,
    /// Whether the chat shows no preview of the links in the answer.
    pub disable_preview: bool,
}

/// What a [`Reply`] stands for.
pub struct ReplyModel {
    /// The text of the answer.
    pub text: Seq<char>,
    /// How the chat is to read the text.
    pub parse_mode: Option<ParseMode>,
    /// The message that the answer replies to.
    pub target: Target,
    /// Whether the answer comes without a sound.
    pub disable_notification: bool,
    /// Whether the chat shows no preview of the links in the answer.
    pub disable_preview: bool,
}

impl ReplyModel {
    /// A plain answer to the calling message.
    pub open spec fn plain(text: Seq<char>) -> ReplyModel {
        ReplyModel {
            text,
            parse_mode: None,
            target: Target::Message,
            disable_notification: false,
            disable_preview: false,
        }
    }

    /// An answer to the calling message that is read as `mode`.
    pub open spec fn formatted(text: Seq<char>, mode: ParseMode) -> ReplyModel {
        ReplyModel { parse_mode: Some(mode), ..Self::plain(text) }
    }
}

impl View for Reply {
    type V = ReplyModel;

    open spec fn view(&self) -> ReplyModel {
        ReplyModel {
            text: self.text@,
            parse_mode: self.parse_mode,
            target: self.target,
            disable_notification: self.disable_notification,
            disable_preview: self.disable_preview,
        }
    }
}

/// The views of an optional answer and of none.
pub open spec fn reply_view(reply: Option<Reply>) -> Option<ReplyModel> {
    match reply {
        Some(reply) => Some(reply@),
        None => None,
    }
}

impl Reply {
    /// A plain answer to the calling message.
    pub fn plain(text: String) -> (reply: Reply)
        ensures
            reply@ == ReplyModel::plain(text@),
    {
        Reply {
            text,
            parse_mode: None,
            target: Target::Message,
            disable_notification: false,
            disable_preview: false,
        }
    }

    /// An answer to the calling message that is read as `mode`.
    pub fn formatted(text: String, mode: ParseMode) -> (reply: Reply)
        ensures
            reply@ == ReplyModel::formatted(text@, mode),
    {
        Reply {
            text,
            parse_mode: Some(mode),
            target: Target::Message,
            disable_notification: false,
            disable_preview: false,
        }
    }

    /// The answer, to come without a sound.
    pub fn disable_notification(self) -> (reply: Reply)
        ensures
            reply@ == (ReplyModel { disable_notification: true, ..self@ }),
    {
        Reply { disable_notification: true, ..self }
    }

    /// The answer, to show no preview of its links.
    pub fn disable_preview(self) -> (reply: Reply)
        ensures
            reply@ == (ReplyModel { disable_preview: true, ..self@ }),
    {
        Reply { disable_preview: true, ..self }
    }

    /// The answer, as a reply to the message that the calling message
    /// replies to.
    pub fn to_replied(self) -> (reply: Reply)
        ensures
            reply@ == (ReplyModel { target: Target::RepliedTo, ..self@ }),
    {
        Reply { target: Target::RepliedTo, ..self }
    }
}

} // verus!
