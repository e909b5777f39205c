//! The `all` action: a message that mentions every member of the chat.

use vstd::prelude::*;
use vstd::string::*;

use crate::message::Message;
use crate::reply::{ParseMode, Reply, ReplyModel};
use crate::text::{i64_text, join, joined, signed_decimal, texts};

verus! {

/// The mention of the user with the number `user`.
pub open spec fn mention(user: i64) -> Seq<char> {
    "[@](tg://user?id="@ + signed_decimal(user as int) + ")"@
}

/// The mentions of the users of `users` but `sender`, in order.
pub open spec fn mentions(users: Seq<i64>, sender: i64) -> Seq<Seq<char>>
    decreases users.len(),
{
    if users.len() == 0 {
        Seq::empty()
    } else if users.last() == sender {
        mentions(users.drop_last(), sender)
    } else {
        mentions(users.drop_last(), sender).push(mention(users.last()))
    }
}

/// The text with which the user `first_name` with the number `sender`
/// mentions `users`.
pub open spec fn attention(first_name: Seq<char>, sender: i64, users: Seq<i64>) -> Seq<char> {
    "*Attention!* ["@ + first_name + "](tg://user?id="@ + signed_decimal(sender as int)
        + ") mentions #all users.\n"@ + joined(mentions(users, sender), " "@)
}

/// The action that mentions every member of the chat.
#[derive(Clone, Copy, Debug, PartialEq, Eq)]
pub struct All;

impl All {
    /// The action.
    pub fn new() -> Self {
        All
    }

    /// The name by which the action is called.
    pub fn cmd(&self) -> (cmd: &'static str)
        ensures
            cmd@ == "all"@,
    {
        "all"
    }

    /// Whether the action is left out of the list of actions.
    pub fn hidden(&self) -> (hidden: bool)
        ensures
            !hidden,
    {
        false
    }

    /// What the action does, in a few words.
    pub fn help(&self) -> (help: &'static str)
        ensures
            help@ == "Mention all members"@,
    {
        "Mention all members"
    }

    /// The answer to the message that calls the action in a chat whose
    /// members are `users`: it mentions each of them but the one who calls.
    pub fn reply(&self, msg: &Message, users: &Vec<i64>) -> (reply: Reply)
        ensures
            reply@ == ReplyModel::formatted(
                attention(msg.from.first_name@, msg.from.id, users@),
                ParseMode::Markdown,
            ),
    {
        let mut list: Vec<String> = Vec::new();
        let mut i: usize = 0;
        proof {
            assert(users@.take(0) =~= Seq::<i64>::empty());
            assert(texts(list@) =~= Seq::<Seq<char>>::empty());
        }
        while i < users.len()
            invariant
                i <= users.len(),
                texts(list@) == mentions(users@.take(i as int), msg.from.id),
            decreases users.len() - i,
        {
            let ghost had = texts(list@);
            if users[i] != msg.from.id {
                let mut one = String::from_str("[@](tg://user?id=");
                let number = i64_text(users[i]);
                one.append(number.as_str());
                one.append(")");
                list.push(one);
                assert(texts(list@) =~= had.push(mention(users@[i as int])));
            }
            proof {
                assert(users@.take(i + 1).drop_last() =~= users@.take(i as int));
                assert(users@.take(i + 1).last() == users@[i as int]);
            }
            i += 1;
        }
        proof {
            assert(users@.take(users.len() as int) =~= users@);
        }
        let mut text = String::from_str("*Attention!* [");
        text.append(msg.from.first_name.as_str());
        text.append("](tg://user?id=");
        let number = i64_text(msg.from.id);
        text.append(number.as_str());
        text.append(") mentions #all users.\n");
        let all = join(&list, " ");
        text.append(all.as_str());
        Reply::formatted(text, ParseMode::Markdown)
    }
}

} // verus!
