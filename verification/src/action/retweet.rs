//! The `rt` action: the bot repeats a message in the name of the user who
//! calls it.

use vstd::prelude::*;
use vstd::string::*;

use crate::message::{Message, MessageKind, MessageOrChannelPost};
use crate::pattern::{capture, first_capture};
use crate::render::text_view;
use crate::reply::{ParseMode, Reply, ReplyModel, Target};
use crate::text::{contains_char, i64_text, signed_decimal};

verus! {

/// The number of the capture group that holds what a retweet repeats.
pub const RETWEETED_GROUP: usize = 1;

/// The regular expression of a retweet: a notice that ends in `RTs:`, one
/// whitespace character, and what is repeated.
pub fn retweet_pattern() -> (pattern: &'static str)
    ensures
        pattern@ == r"^.* RTs:\s(?P<msg>.+)$"@,
{
    r"^.* RTs:\s(?P<msg>.+)$"
}

/// What a retweet of the text `data` repeats, where `found` is what the
/// text repeats itself if it is a retweet: then that, else the text; with a
/// newline before it if it has more than one line.
pub open spec fn retweet_text(data: Seq<char>, found: Option<Seq<char>>) -> Seq<char> {
    let text = match found {
        Some(repeated) => repeated,
        None => data,
    };
    if text.contains('\n') {
        "\n"@ + text
    } else {
        text
    }
}

/// The retweet of `text` in the name of the user `first_name` with the
/// number `id`.
pub open spec fn retweet(id: i64, first_name: Seq<char>, text: Seq<char>) -> Seq<char> {
    "<a href=\"tg://user?id="@ + signed_decimal(id as int) + "\">"@ + first_name
        + "</a> <b>RTs:</b> "@ + text
}

/// The action that repeats a message.
#[derive(Clone, Copy, Debug, PartialEq, Eq)]
pub struct Retweet;

impl Retweet {
    /// The action.
    pub fn new() -> Self {
        Retweet
    }

    /// The name by which the action is called.
    pub fn cmd(&self) -> (cmd: &'static str)
        ensures
            cmd@ == "rt"@,
    {
        "rt"
    }

    /// Whether the action is left out of the list of actions.
    pub fn hidden(&self) -> (hidden: bool)
        ensures
            !hidden,
    {
        false
    }

    /// What the action does, in a few words.
    pub fn help(&self) -> (help: &'static str)
        ensures
            help@ == "Retweet a message"@,
    {
        "Retweet a message"
    }

    /// The answer to the message that calls the action: the retweet of
    /// the text message that it replies to, as a reply to that message; else
    /// what is wrong.
    pub open spec fn reply_to(msg: Message) -> ReplyModel {
        match msg.reply_to_message {
            None => ReplyModel::formatted(
                "To retweet, you must reply to a message with the `/rt` command."@,
                ParseMode::Markdown,
            ),
            Some(replied) => match *replied {
                MessageOrChannelPost::ChannelPost(_) => ReplyModel::formatted(
                    "You can't retweet a channel post."@,
                    ParseMode::Markdown,
                ),
                MessageOrChannelPost::Message(target) => match target.kind {
                    MessageKind::Text { data } => ReplyModel {
                        target: Target::RepliedTo,
                        ..ReplyModel::formatted(
                            retweet(
                                msg.from.id,
                                msg.from.first_name@,
                                retweet_text(
                                    data@,
                                    first_capture(
                                        r"^.* RTs:\s(?P<msg>.+)$"@,
                                        RETWEETED_GROUP as nat,
                                        data@,
                                    ),
                                ),
                            ),
                            ParseMode::Html,
                        )
                    },
                    _ => ReplyModel::formatted(
                        "Only text messages can be retweeted at this moment."@,
                        ParseMode::Markdown,
                    ),
                },
            },
        }
    }

    /// What a retweet of the text `data` repeats, where `found` is what the
    /// text repeats itself if it is a retweet.
    pub fn text(data: &str, found: Option<String>) -> (text: String)
        ensures
            text@ == retweet_text(data@, text_view(found)),
    {
        let text = match found {
            Some(repeated) => repeated,
            None => String::from_str(data),
        };
        if contains_char(text.as_str(), '\n') {
            let mut lines = String::from_str("\n");
            lines.append(text.as_str());
            lines
        } else {
            text
        }
    }

    /// The answer to the message that calls the action.
    pub fn reply(&self, msg: &Message) -> (reply: Reply)
        ensures
            reply@ == Self::reply_to(*msg),
    {
        match &msg.reply_to_message {
            None => Reply::formatted(
                String::from_str("To retweet, you must reply to a message with the `/rt` command."),
                ParseMode::Markdown,
            ),
            Some(replied) => match &**replied {
                MessageOrChannelPost::ChannelPost(_) => Reply::formatted(
                    String::from_str("You can't retweet a channel post."),
                    ParseMode::Markdown,
                ),
                MessageOrChannelPost::Message(target) => match &target.kind {
                    MessageKind::Text { data } => {
                        let found = capture(retweet_pattern(), RETWEETED_GROUP, data.as_str());
                        let repeated = Self::text(data.as_str(), found);
                        let mut text = String::from_str("<a href=\"tg://user?id=");
                        let id = i64_text(msg.from.id);
                        text.append(id.as_str());
                        text.append("\">");
                        text.append(msg.from.first_name.as_str());
                        text.append("</a> <b>RTs:</b> ");
                        text.append(repeated.as_str());
                        Reply::formatted(text, ParseMode::Html).to_replied()
                    },
                    _ => Reply::formatted(
                        String::from_str("Only text messages can be retweeted at this moment."),
                        ParseMode::Markdown,
                    ),
                },
            },
        }
    }
}

} // verus!
