use risc_bot::message::{
    ChannelPost, Message, MessageChat, MessageKind, MessageOrChannelPost, User,
};
use risc_bot::traits::MessageText;

fn message(kind: MessageKind) -> Message {
    Message {
        from: User { id: 1, first_name: "Ann".to_string() },
        chat: MessageChat::Group,
        reply_to_message: None,
        kind,
    }
}

fn some(text: &str) -> Option<String> {
    Some(text.to_string())
}

#[test]
fn text_of_each_kind() {
    assert_eq!(MessageKind::Text { data: "hello".to_string() }.text(), some("hello"));
    assert_eq!(MessageKind::Audio { title: some("song") }.text(), some("song"));
    assert_eq!(MessageKind::Audio { title: None }.text(), None);
    assert_eq!(MessageKind::Photo { caption: some("pic") }.text(), some("pic"));
    assert_eq!(MessageKind::Photo { caption: None }.text(), None);
    assert_eq!(MessageKind::Video { caption: some("clip") }.text(), some("clip"));
    assert_eq!(MessageKind::Contact { first_name: "Ann".to_string() }.text(), some("Ann"));
    assert_eq!(MessageKind::Venue { title: "Hall".to_string() }.text(), some("Hall"));
    assert_eq!(MessageKind::NewChatTitle { data: "Title".to_string() }.text(), some("Title"));
    assert_eq!(MessageKind::Poll { question: "Why?".to_string() }.text(), some("Why?"));
}

#[test]
fn text_of_a_document_prefers_the_caption() {
    let both = MessageKind::Document { file_name: some("a.txt"), caption: some("notes") };
    assert_eq!(both.text(), some("notes"));
    let name = MessageKind::Document { file_name: some("a.txt"), caption: None };
    assert_eq!(name.text(), some("a.txt"));
    let neither = MessageKind::Document { file_name: None, caption: None };
    assert_eq!(neither.text(), None);
}

#[test]
fn kinds_without_text() {
    let kinds = vec![
        MessageKind::Sticker,
        MessageKind::Voice,
        MessageKind::VideoNote,
        MessageKind::Location,
        MessageKind::NewChatMembers,
        MessageKind::LeftChatMember,
        MessageKind::NewChatPhoto,
        MessageKind::DeleteChatPhoto,
        MessageKind::GroupChatCreated,
        MessageKind::SupergroupChatCreated,
        MessageKind::ChannelChatCreated,
        MessageKind::MigrateToChatId,
        MessageKind::MigrateFromChatId,
        MessageKind::Unknown,
    ];
    for kind in kinds {
        assert_eq!(kind.text(), None);
    }
}

#[test]
fn text_of_messages_and_posts() {
    let message = message(MessageKind::Text { data: "m".to_string() });
    assert_eq!(message.text(), some("m"));
    let post = ChannelPost { kind: MessageKind::Photo { caption: some("p") } };
    assert_eq!(post.text(), some("p"));
    assert_eq!(MessageOrChannelPost::Message(message).text(), some("m"));
    assert_eq!(MessageOrChannelPost::ChannelPost(post).text(), some("p"));
}

#[test]
fn text_of_a_pinned_message_is_that_of_the_message() {
    let inner =
        MessageOrChannelPost::Message(message(MessageKind::Text { data: "pinned".to_string() }));
    let pin = MessageKind::PinnedMessage { data: Box::new(inner) };
    let twice = MessageKind::PinnedMessage {
        data: Box::new(MessageOrChannelPost::ChannelPost(ChannelPost { kind: pin })),
    };
    assert_eq!(twice.text(), some("pinned"));
    let silent = MessageKind::PinnedMessage {
        data: Box::new(MessageOrChannelPost::Message(message(MessageKind::Sticker))),
    };
    assert_eq!(silent.text(), None);
}

#[test]
fn text_of_a_message_ignores_what_it_replies_to() {
    let mut reply = message(MessageKind::Sticker);
    reply.reply_to_message = Some(Box::new(MessageOrChannelPost::Message(message(
        MessageKind::Text { data: "first".to_string() },
    ))));
    assert_eq!(reply.text(), None);
}
