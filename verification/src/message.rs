//! Messages of the chat, as far as their text goes.

use vstd::prelude::*;

verus! {

/// What a message holds. Of each kind only what can serve as its text is
/// kept.
#[derive(Debug, PartialEq, Eq)]
#[allow(inconsistent_fields)]
pub enum MessageKind {
    /// A text message.
    Text {
        /// The text of the message.
        data: String,
    },
    /// An audio file.
    Audio {
        /// The title of the piece, where it is given.
        title: Option<String>,
    },
    /// A general file.
    Document {
        /// The name of the file, where it is given.
        file_name: Option<String>,
        /// The caption of the document, where it has one.
        caption: Option<String>,
    },
    /// A photo.
    Photo {
        /// The caption of the photo, where it has one.
        caption: Option<String>,
    },
    /// A sticker.
    Sticker,
    /// A video.
    Video {
        /// The caption of the video, where it has one.
        caption: Option<String>,
    },
    /// A voice message.
    Voice,
    /// A video note.
    VideoNote,
    /// A shared contact.
    Contact {
        /// The first name of the contact.
        first_name: String,
    },
    /// A shared location.
    Location,
    /// A poll.
    Poll {
        /// The question of the poll.
        question: String,
    },
    /// A venue.
    Venue {
        /// The name of the venue.
        title: String,
    },
    /// Members were added to the chat.
    NewChatMembers,
    /// A member left the chat.
    LeftChatMember,
    /// The chat has a new title.
    NewChatTitle {
        /// The new title.
        data: String,
    },
    /// The chat has a new photo.
    NewChatPhoto,
    /// The photo of the chat was deleted.
    DeleteChatPhoto,
    /// The group was created.
    GroupChatCreated,
    /// The supergroup was created.
    SupergroupChatCreated,
    /// The channel was created.
    ChannelChatCreated,
    /// The group has become a supergroup.
    MigrateToChatId,
    /// The supergroup has come from a group.
    MigrateFromChatId,
    /// A message was pinned.
    PinnedMessage {
        /// The message that was pinned.
        data: Box<MessageOrChannelPost>,
    },
    /// Anything else.
    Unknown,
}

/// A user of the chat.
#[derive(Debug, PartialEq, Eq)]
pub struct User {
    /// The number by which the chat knows the user.
    pub id: i64,
    /// The first name of the user.
    pub first_name: String,
}

/// The kind of chat that a message belongs to.
#[derive(Clone, Copy, Debug, PartialEq, Eq, Structural)]
pub enum MessageChat {
    /// A chat with one user.
    Private,
    /// A group.
    Group,
    /// A supergroup.
    Supergroup,
    /// Anything else.
    Unknown,
}

/// A message of a chat.
#[derive(Debug, PartialEq, Eq)]
pub struct Message {
    /// Who sent the message.
    pub from: User,
    /// The kind of chat that the message belongs to.
    pub chat: MessageChat,
    /// The message that this one replies to, if it is a reply.
    pub reply_to_message: Option<Box<MessageOrChannelPost>>,
    /// What the message holds.
    pub kind: MessageKind,
}

/// A post of a channel.
#[derive(Debug, PartialEq, Eq)]
pub struct ChannelPost {
    /// What the post holds.
    pub kind: MessageKind,
}

/// A message or a channel post.
#[derive(Debug, PartialEq, Eq)]
pub enum MessageOrChannelPost {
    /// A message of a chat.
    Message(Message),
    /// A post of a channel.
    ChannelPost(ChannelPost),
}

} // verus!
