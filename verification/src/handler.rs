//! Messages that call no action by name: references to Reddit, `sed` and
//! `tr` expressions that are run on the message replied to, and messages to
//! the bot itself.

use vstd::prelude::*;
use vstd::string::*;

use crate::executor::ExitStatus;
use crate::message::{Message, MessageChat, MessageKind};
use crate::order::{dedup, deduped, sorted, sorted_texts};
use crate::pattern::{all_captures, capture, captures_all, first_capture, found_views};
use crate::render::text_view;
use crate::reply::{reply_view, ParseMode, Reply, ReplyModel};
use crate::text::{join, joined, replace_char, replaced, texts};
use crate::traits::{post_text, MessageText};

verus! {

/// The number of the capture group that holds what the expressions of
/// this file look for.
pub const FOUND_GROUP: usize = 1;

/// The regular expression of a reference to Reddit, such as `/r/rust`.
pub fn reddit_pattern() -> (pattern: &'static str)
    ensures
        pattern@ == r"(?:^|\s)(?i)/?r/(?P<r>[A-Z0-9_]{1,100})(?:$|\s)"@,
{
    r"(?:^|\s)(?i)/?r/(?P<r>[A-Z0-9_]{1,100})(?:$|\s)"
}

/// The regular expression of a message that holds a `sed` expression.
pub fn sed_pattern() -> (pattern: &'static str)
    ensures
        pattern@ == r"^\s*([sy]/.*/.*/[a-zA-Z0-9]*)\s*$"@,
{
    r"^\s*([sy]/.*/.*/[a-zA-Z0-9]*)\s*$"
}

/// The regular expression of a message that holds a `tr` expression.
pub fn tr_pattern() -> (pattern: &'static str)
    ensures
        pattern@ == r"^\s*tr\s+(.*\s*.*)\s*$"@,
{
    r"^\s*tr\s+(.*\s*.*)\s*$"
}

/// The texts that were found, in order.
pub open spec fn present(found: Seq<Option<Seq<char>>>) -> Seq<Seq<char>>
    decreases found.len(),
{
    if found.len() == 0 {
        Seq::empty()
    } else {
        match found.last() {
            Some(text) => present(found.drop_last()).push(text),
            None => present(found.drop_last()),
        }
    }
}

/// The link to the subreddit `name`.
pub open spec fn reddit_link(name: Seq<char>) -> Seq<char> {
    "[/r/"@ + name + "](https://old.reddit.com/r/"@ + name + ")"@
}

/// The links to the subreddits `names`, in order.
pub open spec fn reddit_links(names: Seq<Seq<char>>) -> Seq<Seq<char>> {
    Seq::new(names.len(), |i: int| reddit_link(names[i]))
}

/// The answer to a message in which the references `found` to Reddit
/// were found: the links to the subreddits, each once and in order, one
/// below the other, without a sound; none where nothing was found.
pub open spec fn reddit_reply_of(found: Seq<Option<Seq<char>>>) -> Option<ReplyModel> {
    let names = deduped(sorted_texts(present(found)));
    if names.len() == 0 {
        None
    } else {
        Some(
            ReplyModel {
                disable_notification: true,
                ..ReplyModel::formatted(joined(reddit_links(names), "\n"@), ParseMode::Markdown)
            },
        )
    }
}

/// `text` as it can stand between single quotes in a shell command.
pub open spec fn quoted(text: Seq<char>) -> Seq<char> {
    replaced(text, '\'', "'\"'\"'"@)
}

/// The shell command that runs the `sed` expression `expr` on `reply`.
pub open spec fn sed_command_of(expr: Seq<char>, reply: Seq<char>) -> Seq<char> {
    "echo '"@ + quoted(reply) + "' | sed '"@ + quoted(expr) + "'"@
}

/// The shell command that runs `tr` with the arguments `expr` on `reply`.
pub open spec fn tr_command_of(expr: Seq<char>, reply: Seq<char>) -> Seq<char> {
    "echo '"@ + quoted(reply) + "' | tr "@ + quoted(expr)
}

/// The text of the message that `msg` replies to, if it replies to one
/// that has a text.
pub open spec fn replied_text(msg: Message) -> Option<Seq<char>> {
    match msg.reply_to_message {
        Some(replied) => post_text(*replied),
        None => None,
    }
}

/// What is shown of a command that was run on a message: its output,
/// under `notice` if it failed.
pub open spec fn evaluated(notice: Seq<char>, output: Seq<char>, status: ExitStatus) -> ReplyModel {
    ReplyModel {
        disable_notification: true,
        ..ReplyModel::plain(
            if status.spec_success() {
                output
            } else {
                notice + output
            },
        )
    }
}

/// The answer to a message that a user sends to the bot itself.
pub open spec fn private_reply_of(first_name: Seq<char>) -> ReplyModel {
    ReplyModel::formatted(
        "`BLEEP BLOOP`\n`I AM A BOT`\n\n"@ + first_name
            + ", direct messages are not supported yet."@,
        ParseMode::Markdown,
    )
}

/// What to do with a message that calls no action by name.
#[derive(Debug, PartialEq, Eq)]
pub enum Route {
    /// To answer with links to the subreddits that the message refers to.
    Reddit(Reply),
    /// To run this shell command, which holds a `sed` expression, and to
    /// answer with its output.
    Sed(String),
    /// To run this shell command, which holds a call of `tr`, and to answer
    /// with its output.
    Tr(String),
    /// To answer a message to the bot itself.
    Private(Reply),
    /// Nothing.
    Nothing,
}

/// What a [`Route`] stands for.
pub enum RouteModel {
    /// To answer with links to subreddits.
    Reddit(ReplyModel),
    /// To run this shell command with a `sed` expression.
    Sed(Seq<char>),
    /// To run this shell command with a call of `tr`.
    Tr(Seq<char>),
    /// To answer a message to the bot itself.
    Private(ReplyModel),
    /// Nothing.
    Nothing,
}

impl View for Route {
    type V = RouteModel;

    open spec fn view(&self) -> RouteModel {
        match *self {
            Route::Reddit(reply) => RouteModel::Reddit(reply@),
            Route::Sed(cmd) => RouteModel::Sed(cmd@),
            Route::Tr(cmd) => RouteModel::Tr(cmd@),
            Route::Private(reply) => RouteModel::Private(reply@),
            Route::Nothing => RouteModel::Nothing,
        }
    }
}

/// The handler of the messages that call no action by name.
#[derive(Clone, Copy, Debug, PartialEq, Eq)]
pub struct Handler;

impl Handler {
    /// The shell command for the `sed` expression that the text `text`
    /// holds, to be run on the text of the message that `msg` replies to;
    /// none where the text holds no such expression or there is no such
    /// text.
    pub open spec fn sed_command(text: Seq<char>, msg: Message) -> Option<Seq<char>> {
        match first_capture(r"^\s*([sy]/.*/.*/[a-zA-Z0-9]*)\s*$"@, FOUND_GROUP as nat, text) {
            Some(expr) => match replied_text(msg) {
                Some(reply) => Some(sed_command_of(expr, reply)),
                None => None,
            },
            None => None,
        }
    }

    /// The shell command for the call of `tr` that the text `text` holds,
    /// to be run on the text of the message that `msg` replies to; none
    /// where the text holds no such call or there is no such text.
    pub open spec fn tr_command(text: Seq<char>, msg: Message) -> Option<Seq<char>> {
        match first_capture(r"^\s*tr\s+(.*\s*.*)\s*$"@, FOUND_GROUP as nat, text) {
            Some(expr) => match replied_text(msg) {
                Some(reply) => Some(tr_command_of(expr, reply)),
                None => None,
            },
            None => None,
        }
    }

    /// What to do with the message `msg`: with a text message, the first
    /// that applies of links to Reddit, a `sed` expression, a call of `tr`
    /// and, in a private chat, the answer to a message to the bot; nothing
    /// with any other message.
    pub open spec fn route(msg: Message) -> RouteModel {
        match msg.kind {
            MessageKind::Text { data } => if let Some(reply) = reddit_reply_of(
                all_captures(
                    r"(?:^|\s)(?i)/?r/(?P<r>[A-Z0-9_]{1,100})(?:$|\s)"@,
                    FOUND_GROUP as nat,
                    data@,
                ),
            ) {
                RouteModel::Reddit(reply)
            } else if let Some(cmd) = Self::sed_command(data@, msg) {
                RouteModel::Sed(cmd)
            } else if let Some(cmd) = Self::tr_command(data@, msg) {
                RouteModel::Tr(cmd)
            } else if msg.chat == MessageChat::Private {
                RouteModel::Private(private_reply_of(msg.from.first_name@))
            } else {
                RouteModel::Nothing
            },
            _ => RouteModel::Nothing,
        }
    }

    /// What to do with the message `msg`, which calls no action by name.
    pub fn handle(msg: &Message) -> (route: Route)
        ensures
            route@ == Self::route(*msg),
    {
        match &msg.kind {
            MessageKind::Text { data } => {
                match Self::handle_reddit(data.as_str()) {
                    Some(reply) => {
                        return Route::Reddit(reply);
                    },
                    None => {},
                }
                match Self::handle_sed(data.as_str(), msg) {
                    Some(cmd) => {
                        return Route::Sed(cmd);
                    },
                    None => {},
                }
                match Self::handle_tr(data.as_str(), msg) {
                    Some(cmd) => {
                        return Route::Tr(cmd);
                    },
                    None => {},
                }
                match msg.chat {
                    MessageChat::Private => Route::Private(Self::handle_private(msg)),
                    _ => Route::Nothing,
                }
            },
            _ => Route::Nothing,
        }
    }

    /// The answer to a message in which the references `found` to Reddit
    /// were found.
    pub fn reddit_reply(found: Vec<Option<String>>) -> (reply: Option<Reply>)
        ensures
            reply_view(reply) == reddit_reply_of(found_views(found@)),
    {
        let mut reddits: Vec<String> = Vec::new();
        let mut i: usize = 0;
        proof {
            assert(found_views(found@).take(0) =~= Seq::<Option<Seq<char>>>::empty());
            assert(texts(reddits@) =~= Seq::<Seq<char>>::empty());
        }
        while i < found.len()
            invariant
                i <= found.len(),
                texts(reddits@) == present(found_views(found@).take(i as int)),
            decreases found.len() - i,
        {
            let ghost had = texts(reddits@);
            proof {
                let upto = found_views(found@).take(i + 1);
                assert(upto.drop_last() =~= found_views(found@).take(i as int));
                assert(upto.last() == text_view(found@[i as int]));
            }
            match &found[i] {
                Some(name) => {
                    reddits.push(name.clone());
                    assert(texts(reddits@) =~= had.push(name@));
                },
                None => {},
            }
            i += 1;
        }
        proof {
            assert(found_views(found@).take(found.len() as int) =~= found_views(found@));
        }
        let reddits = dedup(sorted(reddits));
        if reddits.len() == 0 {
            return None;
        }
        let mut links: Vec<String> = Vec::new();
        let mut i: usize = 0;
        while i < reddits.len()
            invariant
                i <= reddits.len(),
                links@.len() == i,
                forall|j: int| 0 <= j < i ==> (#[trigger] links@[j])@ == reddit_link(reddits@[j]@),
            decreases reddits.len() - i,
        {
            let mut link = String::from_str("[/r/");
            link.append(reddits[i].as_str());
            link.append("](https://old.reddit.com/r/");
            link.append(reddits[i].as_str());
            link.append(")");
            links.push(link);
            i += 1;
        }
        assert(texts(links@) =~= reddit_links(texts(reddits@)));
        Some(Reply::formatted(join(&links, "\n"), ParseMode::Markdown).disable_notification())
    }

    /// The answer to a message with the text `msg_text` if it refers to
    /// Reddit, as in `/r/rust`: the links to the subreddits.
    pub fn handle_reddit(msg_text: &str) -> (reply: Option<Reply>)
        ensures
            reply_view(reply) == reddit_reply_of(
                all_captures(
                    r"(?:^|\s)(?i)/?r/(?P<r>[A-Z0-9_]{1,100})(?:$|\s)"@,
                    FOUND_GROUP as nat,
                    msg_text@,
                ),
            ),
    {
        Self::reddit_reply(captures_all(reddit_pattern(), FOUND_GROUP, msg_text))
    }

    /// `text` as it can stand between single quotes in a shell command:
    /// each single quote ends the quoted part, stands between double quotes,
    /// and opens the quoted part again.
    pub fn quote(text: &str) -> (quoted: String)
        ensures
            quoted@ == self::quoted(text@),
    {
        replace_char(text, '\'', "'\"'\"'")
    }

    /// The shell command that runs the `sed` expression `expr` on `reply`.
    pub fn sed_command_for(expr: &str, reply: &str) -> (cmd: String)
        ensures
            cmd@ == sed_command_of(expr@, reply@),
    {
        let mut cmd = String::from_str("echo '");
        let reply = Self::quote(reply);
        cmd.append(reply.as_str());
        cmd.append("' | sed '");
        let expr = Self::quote(expr);
        cmd.append(expr.as_str());
        cmd.append("'");
        cmd
    }

    /// The shell command that runs `tr` with the arguments `expr` on `reply`.
    pub fn tr_command_for(expr: &str, reply: &str) -> (cmd: String)
        ensures
            cmd@ == tr_command_of(expr@, reply@),
    {
        let mut cmd = String::from_str("echo '");
        let reply = Self::quote(reply);
        cmd.append(reply.as_str());
        cmd.append("' | tr ");
        let expr = Self::quote(expr);
        cmd.append(expr.as_str());
        cmd
    }

    /// The text of the message that `msg` replies to.
    pub fn replied_text(msg: &Message) -> (text: Option<String>)
        ensures
            text_view(text) == self::replied_text(*msg),
    {
        match &msg.reply_to_message {
            Some(replied) => replied.text(),
            None => None,
        }
    }

    /// The shell command for a message with the text `msg_text` that holds
    /// a `sed` expression, such as `s/foo/bar/`, and replies to a message
    /// with a text.
    pub fn handle_sed(msg_text: &str, msg: &Message) -> (cmd: Option<String>)
        ensures
            text_view(cmd) == Self::sed_command(msg_text@, *msg),
    {
        let expr = match capture(sed_pattern(), FOUND_GROUP, msg_text) {
            Some(expr) => expr,
            None => {
                return None;
            },
        };
        let reply = match Self::replied_text(msg) {
            Some(reply) => reply,
            None => {
                return None;
            },
        };
        Some(Self::sed_command_for(expr.as_str(), reply.as_str()))
    }

    /// The shell command for a message with the text `msg_text` that holds
    /// a call of `tr`, such as `tr a b`, and replies to a message with a
    /// text.
    pub fn handle_tr(msg_text: &str, msg: &Message) -> (cmd: Option<String>)
        ensures
            text_view(cmd) == Self::tr_command(msg_text@, *msg),
    {
        let expr = match capture(tr_pattern(), FOUND_GROUP, msg_text) {
            Some(expr) => expr,
            None => {
                return None;
            },
        };
        let reply = match Self::replied_text(msg) {
            Some(reply) => reply,
            None => {
                return None;
            },
        };
        Some(Self::tr_command_for(expr.as_str(), reply.as_str()))
    }

    /// The answer with the output of a `sed` expression that was run.
    pub fn sed_reply(output: String, status: ExitStatus) -> (reply: Reply)
        ensures
            reply@ == evaluated("Failed to evaluate sed expression:\n\n"@, output@, status),
    {
        if status.success() {
            Reply::plain(output).disable_notification()
        } else {
            let mut text = String::from_str("Failed to evaluate sed expression:\n\n");
            text.append(output.as_str());
            Reply::plain(text).disable_notification()
        }
    }

    /// The answer with the output of a call of `tr` that was run.
    pub fn tr_reply(output: String, status: ExitStatus) -> (reply: Reply)
        ensures
            reply@ == evaluated("Failed to evaluate tr expression:\n\n"@, output@, status),
    {
        if status.success() {
            Reply::plain(output).disable_notification()
        } else {
            let mut text = String::from_str("Failed to evaluate tr expression:\n\n");
            text.append(output.as_str());
            Reply::plain(text).disable_notification()
        }
    }

    /// The answer to the message `msg` that a user sends to the bot itself.
    pub fn handle_private(msg: &Message) -> (reply: Reply)
        ensures
            reply@ == private_reply_of(msg.from.first_name@),
    {
        let mut text = String::from_str("`BLEEP BLOOP`\n`I AM A BOT`\n\n");
        text.append(msg.from.first_name.as_str());
        text.append(", direct messages are not supported yet.");
        Reply::formatted(text, ParseMode::Markdown)
    }
}

} // verus!
