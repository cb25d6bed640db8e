//! Domain records: users, conversations, messages and reactions.
//!
//! Identifiers are 128-bit integers (the numeric value of the storage layer's
//! UUIDs); instants are unix timestamps in seconds.

use vstd::prelude::*;

verus! {

/// A stored user row.
#[derive(Debug, PartialEq, Eq)]
pub struct User {
    pub id: u128,
    pub username: String,
    pub password_hash: String,
    pub public_key: String,
    pub created_at: i64,
}

/// The data a client supplies to create an account.
#[derive(Debug, PartialEq, Eq)]
pub struct NewUser {
    pub username: String,
    pub password: String,
    pub public_key: String,
}

/// A stored conversation row.
#[derive(Debug, PartialEq, Eq)]
pub struct Chat {
    pub id: u128,
    pub name: Option<String>,
    pub chat_type: String,
    pub created_at: i64,
}

/// The data a client supplies to create a conversation.
#[derive(Debug, PartialEq, Eq)]
pub struct NewChat {
    pub name: Option<String>,
    pub chat_type: String,
}

/// A conversation as listed for one of its members.
#[derive(Debug, Clone, PartialEq, Eq)]
pub struct UserChat {
    pub id: u128,
    pub name: Option<String>,
    pub chat_type: String,
}

/// A stored message row.
#[derive(Debug, PartialEq, Eq)]
pub struct Message {
    pub id: u128,
    pub chat_id: u128,
    pub sender_id: u128,
    pub body: String,
    pub created_at: i64,
    pub is_edited: bool,
    pub is_deleted: bool,
    /// The prior message this one replies to, if any.
    pub reply_to_id: Option<u128>,
    /// The prior message this one is a forwarded copy of, if any.
    pub forwarded_from: Option<u128>,
}

/// A validated request to store a message.
#[derive(Debug, PartialEq, Eq)]
pub struct NewMessage {
    pub chat_id: u128,
    pub body: String,
    /// The prior message this one replies to, if any.
    pub reply_to_id: Option<u128>,
    /// The prior message this one is a forwarded copy of, if any.
    pub forwarded_from: Option<u128>,
}

/// One reaction on a message.
#[derive(Debug, PartialEq, Eq)]
pub struct Reaction {
    pub message_id: u128,
    pub emoji: String,
}

/// One line of a conversation's visible history, as served to readers.
#[derive(Debug, PartialEq, Eq)]
pub struct ChatMessage {
    pub from: String,
    pub body: String,
    pub created_at: i64,
}

/// The mathematical value of a [`ChatMessage`].
pub struct ChatMessageV {
    pub from: Seq<char>,
    pub body: Seq<char>,
    pub created_at: i64,
}

impl View for ChatMessage {
    type V = ChatMessageV;

    closed spec fn view(&self) -> ChatMessageV {
        ChatMessageV { from: self.from@, body: self.body@, created_at: self.created_at }
    }
}

/// The mathematical value of a visible history: its lines, in order.
pub open spec fn history_view(s: Seq<ChatMessage>) -> Seq<ChatMessageV> {
    s.map_values(|m: ChatMessage| m@)
}

impl Clone for ChatMessage {
    fn clone(&self) -> (r: Self)
        ensures
            r@ == self@,
    {
        ChatMessage { from: self.from.clone(), body: self.body.clone(), created_at: self.created_at }
    }
}

/// Copies a visible history line for line.
#[verifier::loop_isolation(false)]
pub fn copy_history(v: &Vec<ChatMessage>) -> (r: Vec<ChatMessage>)
    ensures
        history_view(r@) == history_view(v@),
{
    let mut r: Vec<ChatMessage> = Vec::new();
    let mut i: usize = 0;
    while i < v.len()
        invariant
            i <= v.len(),
            history_view(r@) =~= history_view(v@).take(i as int),
        decreases v.len() - i,
    {
        let m = v[i].clone();
        r.push(m);
        proof {
            assert(history_view(r@) =~= history_view(v@).take(i as int + 1));
        }
        i = i + 1;
    }
    proof {
        assert(history_view(v@).take(v@.len() as int) =~= history_view(v@));
    }
    r
}

} // verus!
