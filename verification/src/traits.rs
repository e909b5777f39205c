//! The text of a message.

use vstd::prelude::*;

use crate::message::{ChannelPost, Message, MessageKind, MessageOrChannelPost};
use crate::render::text_view;

verus! {

/// The text of a message of kind `kind`: the text of a text message, the
/// title of a piece of audio, the caption of a document or else its file
/// name, the caption of a photo or a video, the first name of a contact, the
/// name of a venue, a new chat title, the question of a poll, the text of a
/// pinned message; none for the other kinds.
pub open spec fn kind_text(kind: MessageKind) -> Option<Seq<char>>
    decreases kind,
{
    match kind {
        MessageKind::Text { data } => Some(data@),
        MessageKind::Audio { title } => text_view(title),
        MessageKind::Document { file_name, caption } => if caption is Some {
            text_view(caption)
        } else {
            text_view(file_name)
        },
        MessageKind::Photo { caption } => text_view(caption),
        MessageKind::Video { caption } => text_view(caption),
        MessageKind::Contact { first_name } => Some(first_name@),
        MessageKind::Venue { title } => Some(title@),
        MessageKind::NewChatTitle { data } => Some(data@),
        MessageKind::PinnedMessage { data } => post_text(*data),
        MessageKind::Poll { question } => Some(question@),
        _ => None,
    }
}

/// The text of a message or a channel post: that of what it holds.
pub open spec fn post_text(post: MessageOrChannelPost) -> Option<Seq<char>>
    decreases post,
{
    match post {
        MessageOrChannelPost::Message(message) => kind_text(message.kind),
        MessageOrChannelPost::ChannelPost(post) => kind_text(post.kind),
    }
}

/// A message that may have a text.
pub trait MessageText {
    /// The text of the message, if it has one.
    spec fn text_of(&self) -> Option<Seq<char>>;

    /// The text of the message, if it has one.
    fn text(&self) -> (text: Option<String>)
        ensures
            text_view(text) == self.text_of(),
    ;
}

impl MessageText for MessageOrChannelPost {
    open spec fn text_of(&self) -> Option<Seq<char>> {
        post_text(*self)
    }

    fn text(&self) -> (text: Option<String>)
        decreases *self,
    {
        match self {
            MessageOrChannelPost::Message(message) => message.text(),
            MessageOrChannelPost::ChannelPost(post) => post.text(),
        }
    }
}

impl MessageText for Message {
    open spec fn text_of(&self) -> Option<Seq<char>> {
        kind_text(self.kind)
    }

    fn text(&self) -> (text: Option<String>)
        decreases *self,
    {
        self.kind.text()
    }
}

impl MessageText for MessageKind {
    open spec fn text_of(&self) -> Option<Seq<char>> {
        kind_text(*self)
    }

    fn text(&self) -> (text: Option<String>)
        decreases *self,
    {
        match self {
            MessageKind::Text { data } => Some(data.clone()),
            MessageKind::Audio { title } => title.clone(),
            MessageKind::Document { file_name, caption } => match caption {
                Some(caption) => Some(caption.clone()),
                None => file_name.clone(),
            },
            MessageKind::Photo { caption } => caption.clone(),
            MessageKind::Sticker => None,
            MessageKind::Video { caption } => caption.clone(),
            MessageKind::Voice => None,
            MessageKind::VideoNote => None,
            MessageKind::Contact { first_name } => Some(first_name.clone()),
            MessageKind::Location => None,
            MessageKind::Venue { title } => Some(title.clone()),
            MessageKind::NewChatMembers => None,
            MessageKind::LeftChatMember => None,
            MessageKind::NewChatTitle { data } => Some(data.clone()),
            MessageKind::NewChatPhoto => None,
            MessageKind::DeleteChatPhoto => None,
            MessageKind::GroupChatCreated => None,
            MessageKind::SupergroupChatCreated => None,
            MessageKind::ChannelChatCreated => None,
            MessageKind::MigrateToChatId => None,
            MessageKind::MigrateFromChatId => None,
            MessageKind::PinnedMessage { data } => data.text(),
            MessageKind::Poll { question } => Some(question.clone()),
            MessageKind::Unknown => None,
        }
    }
}

impl MessageText for ChannelPost {
    open spec fn text_of(&self) -> Option<Seq<char>> {
        kind_text(self.kind)
    }

    fn text(&self) -> (text: Option<String>)
        decreases *self,
    {
        self.kind.text()
    }
}

} // verus!
