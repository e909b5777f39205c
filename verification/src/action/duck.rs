//! The `duck` action: a link that searches DuckDuckGo for what the user
//! has put in.

use vstd::prelude::*;
use vstd::string::*;

use crate::message::{Message, MessageKind};
use crate::reply::{reply_view, ParseMode, Reply, ReplyModel};
use crate::text::{
    encode_minimal, escaped, input, input_of, percent_encoded, trim_end, trimmed_end, url_encode,
};

verus! {

/// The link that searches for `query`: the address of the search with the
/// query percent-encoded, shown as the query itself.
pub open spec fn search_link(query: Seq<char>) -> Seq<char> {
    "<a href=\""@ + ("https://duckduckgo.com/?q="@ + percent_encoded(
        vstd::utf8::encode_utf8(query),
    )) + "\">"@ + escaped(query) + "</a>"@
}

/// The action that searches DuckDuckGo.
#[derive(Clone, Copy, Debug, PartialEq, Eq)]
pub struct Duck;

impl Duck {
    /// The action.
    pub fn new() -> Self {
        Duck
    }

    /// The name by which the action is called.
    pub fn cmd(&self) -> (cmd: &'static str)
        ensures
            cmd@ == "duck"@,
    {
        "duck"
    }

    /// Whether the action is left out of the list of actions.
    pub fn hidden(&self) -> (hidden: bool)
        ensures
            !hidden,
    {
        false
    }

    /// What the action does, in a few words.
    pub fn help(&self) -> (help: &'static str)
        ensures
            help@ == "Search using DuckDuckGo"@,
    {
        "Search using DuckDuckGo"
    }

    /// The text that tells how the action is used.
    pub fn usage() -> (usage: &'static str)
        ensures
            usage@
                == "Search using [DuckDuckGo](https://duckduckgo.com/).\n\nPlease provide a search query, such as:\n`/duck Telegram`\n`/duck !w Telegram app`"@,
    {
        "Search using [DuckDuckGo](https://duckduckgo.com/).\n\nPlease provide a search query, such as:\n`/duck Telegram`\n`/duck !w Telegram app`"
    }

    /// What a text message asks to search for: what stands behind its
    /// first word, without the whitespace around it.
    pub open spec fn query_of(data: Seq<char>) -> Seq<char> {
        trimmed_end(input_of(data))
    }

    /// The answer to the message that calls the action: to a text
    /// message, the link that searches for its query, or how the action
    /// is used where there is no query; none to any other message.
    pub open spec fn reply_to(msg: Message) -> Option<ReplyModel> {
        match msg.kind {
            MessageKind::Text { data } => Some(
                if Self::query_of(data@).len() == 0 {
                    ReplyModel {
                        disable_preview: true,
                        ..ReplyModel::formatted(
                            "Search using [DuckDuckGo](https://duckduckgo.com/).\n\nPlease provide a search query, such as:\n`/duck Telegram`\n`/duck !w Telegram app`"@,
                            ParseMode::Markdown,
                        )
                    }
                } else {
                    ReplyModel::formatted(search_link(Self::query_of(data@)), ParseMode::Html)
                },
            ),
            _ => None,
        }
    }

    /// The link that searches for `query`.
    pub fn link(query: &str) -> (link: String)
        ensures
            link@ == search_link(query@),
    {
        let mut url = String::from_str("https://duckduckgo.com/?q=");
        let encoded = url_encode(query);
        url.append(encoded.as_str());
        let mut link = String::from_str("<a href=\"");
        link.append(url.as_str());
        link.append("\">");
        let shown = encode_minimal(query);
        link.append(shown.as_str());
        link.append("</a>");
        link
    }

    /// The answer to the message that calls the action.
    pub fn reply(&self, msg: &Message) -> (reply: Option<Reply>)
        ensures
            reply_view(reply) == Self::reply_to(*msg),
    {
        match &msg.kind {
            MessageKind::Text { data } => {
                let behind = input(data.as_str());
                let query = trim_end(behind.as_str());
                if query.as_str().unicode_len() == 0 {
                    Some(
                        Reply::formatted(
                            String::from_str(Self::usage()),
                            ParseMode::Markdown,
                        ).disable_preview(),
                    )
                } else {
                    Some(Reply::formatted(Self::link(query.as_str()), ParseMode::Html))
                }
            },
            _ => None,
        }
    }
}

} // verus!
