//! The dispatcher's vocabulary: inbound commands, outbound replies, the
//! queries it sends to the storage collaborator with their answers, and the
//! actions it asks the connection's driver to carry out.
//!
//! An envelope's tag selects the command variant; fields the envelope may
//! omit arrive as `None`, and identifiers arrive as the UUID texts from the
//! wire — validating them is the dispatcher's job.

use vstd::prelude::*;

use crate::auth::AuthFailure;
use crate::model::ChatMessage;
use crate::model::NewMessage;
use crate::model::NewUser;
use crate::model::Message;
use crate::model::User;
use crate::model::UserChat;

verus! {

/// The raw payload of a send request, identifiers still in text form.
#[derive(Debug, PartialEq, Eq)]
pub struct NewMessagePayload {
    pub chat_id: String,
    pub body: String,
    pub reply_to_id: Option<String>,
    pub forwarded_from: Option<String>,
}

/// One decoded inbound envelope.
#[derive(Debug)]
#[allow(inconsistent_fields)]
pub enum Command {
    Auth { token: Option<String> },
    Register { payload: Option<NewUser> },
    Login { username: Option<String>, password: Option<String> },
    SendMessage { payload: Option<NewMessagePayload> },
    GetMessages { chat_id: Option<String>, limit: Option<i64> },
    EditMessage { message_id: Option<String>, new_body: Option<String> },
    DeleteMessage { message_id: Option<String>, for_all: Option<bool> },
    React { message_id: Option<String>, emoji: Option<String> },
    ForwardMessage { chat_id: Option<String>, original_message_id: Option<String> },
    CreateChat { name: Option<String>, members: Vec<String> },
    AddToChat { chat_id: Option<String>, user_id: Option<String> },
    RemoveFromChat { chat_id: Option<String>, user_id: Option<String> },
    GetChatMembers { chat_id: Option<String> },
    GetMyChats,
    Unknown { text: String },
}

/// The distinct error codes a reply can carry, so clients can branch on them.
#[derive(Debug, PartialEq, Eq, Clone, Copy)]
pub enum ErrorKind {
    Unauthorized,
    InvalidToken,
    InvalidPayload,
    InvalidMessageFormat,
    NotInChat,
    UserNotFound,
    UserNotInChat,
    CheckFailed,
    UserCheckFailed,
    ChatCheckFailed,
    DbError,
    EditFailed,
    DeleteFailed,
    ReactionFailed,
    ForwardFailed,
    CreateChatFailed,
    AddFailed,
    RemoveFailed,
    GetMembersFailed,
    RegisterFailed,
    HashFailed,
}

/// One outbound reply to the connection that sent the command.
#[derive(Debug)]
pub enum Reply {
    Authenticated,
    AuthOk { token: String },
    LoginRejected { why: AuthFailure },
    MessageSaved { message_id: u128, timestamp: i64 },
    MessageHistory { chat_id: u128, messages: Vec<ChatMessage> },
    MessageEdited,
    MessageDeleted,
    ReactionSet,
    MessageForwarded { message_id: u128, timestamp: i64, forwarded_from: Option<u128> },
    ChatCreated { chat_id: u128 },
    UserAdded,
    UserRemoved,
    MembersList { members: Vec<u128> },
    ChatList { chats: Vec<UserChat> },
    Echo { text: String },
    Failure { kind: ErrorKind, detail: String },
}

/// One query for the storage collaborator; its answer comes back as the
/// matching [`StorageResult`] event.
#[derive(Debug)]
pub enum StorageQuery {
    CreateUser { username: String, password_hash: String, public_key: String },
    FindUser { username: String },
    UserExists { user_id: u128 },
    GetUsername { user_id: u128 },
    IsMember { chat_id: u128, user_id: u128 },
    ChatMembers { chat_id: u128 },
    InsertMessage { msg: NewMessage, sender_id: u128 },
    MarkEdited { message_id: u128, user_id: u128, new_body: String },
    MarkDeleted { message_id: u128, user_id: u128, for_all: bool },
    UpsertReaction { message_id: u128, user_id: u128, emoji: String },
    FetchOriginal { message_id: u128 },
    /// Create a conversation whose initial member set is the creator alone;
    /// further members join through the add-member command.
    CreateChat { name: String, creator: u128 },
    AddMember { chat_id: u128, user_id: u128 },
    RemoveMember { chat_id: u128, user_id: u128 },
    ListUserChats { user_id: u128 },
    FetchHistory { chat_id: u128 },
}

/// The storage collaborator's answer to the query in flight. Errors carry the
/// collaborator's detail text.
#[derive(Debug)]
pub enum StorageResult {
    UserCreated(Result<User, String>),
    /// The user found under the queried name, if any; `Err` when the lookup
    /// itself failed.
    UserFound(Result<Option<User>, String>),
    UserIsKnown(Result<bool, String>),
    Username(Result<String, String>),
    IsMember(Result<bool, String>),
    ChatMembers(Result<Vec<u128>, String>),
    MessageInserted(Result<Message, String>),
    /// `Ok(Some(chat))` when the requester's row was updated in conversation
    /// `chat`; `Ok(None)` when no row matched (not the sender, or no such
    /// message).
    EditApplied(Result<Option<u128>, String>),
    DeleteApplied(Result<Option<u128>, String>),
    ReactionSaved(Result<(), String>),
    /// The body of the message to forward, if it exists.
    Original(Result<Option<String>, String>),
    ChatCreated(Result<u128, String>),
    MemberAdded(Result<(), String>),
    MemberRemoved(Result<(), String>),
    UserChats(Result<Vec<UserChat>, String>),
    History(Result<Vec<ChatMessage>, String>),
}

/// What the connection's driver must do next, in order.
#[derive(Debug)]
pub enum Action {
    /// Send this reply on the connection's own channel.
    Reply(Reply),
    /// Ask the storage collaborator and feed the answer back as an event.
    Query(StorageQuery),
    /// Push this event to the given live connection (fan-out).
    Push { conn: u64, chat_id: u128, from: String, body: String },
    /// Tear the connection down.
    Close,
}

/// The text of an optional field, with the empty text for an absent one.
pub open spec fn opt_text(o: Option<String>) -> Seq<char> {
    match o {
        Some(s) => s@,
        None => Seq::empty(),
    }
}

/// `a` is a reply carrying error `k` with no detail text.
pub open spec fn is_error(a: Action, k: ErrorKind) -> bool {
    a matches Action::Reply(Reply::Failure { kind, detail }) && kind == k && detail@
        == Seq::<char>::empty()
}

/// `a` is a reply carrying error `k` whose detail text is `d`.
pub open spec fn is_error_with(a: Action, k: ErrorKind, d: Seq<char>) -> bool {
    a matches Action::Reply(Reply::Failure { kind, detail }) && kind == k && detail@ == d
}

/// The actions are a single no-detail error reply `k`.
pub open spec fn lone_error(acts: Seq<Action>, k: ErrorKind) -> bool {
    acts.len() == 1 && is_error(acts[0], k)
}

/// The actions are a single error reply `k` with detail text `d`.
pub open spec fn lone_error_with(acts: Seq<Action>, k: ErrorKind, d: Seq<char>) -> bool {
    acts.len() == 1 && is_error_with(acts[0], k, d)
}

} // verus!
