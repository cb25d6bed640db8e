//! The per-connection command dispatcher.
//!
//! Each connection runs one state machine: unauthenticated until a
//! successful `auth`, `register` or `login`, then authenticated as one
//! identity. Every inbound envelope is validated and authorized here, every
//! storage answer is turned into the replies, cache updates and fan-out
//! pushes it calls for. The storage collaborator itself stays outside: the
//! dispatcher emits a query as an action and is fed the answer as the next
//! event, so its decisions are checked for every answer storage could give.

use vstd::prelude::*;

use crate::auth::AuthFailure;
use crate::auth::authenticate_user;
use crate::auth::bcrypt_accepts;
use crate::auth::generate_jwt;
use crate::auth::hash_password;
use crate::auth::jwt_claims;
use crate::auth::token_expiry;
use crate::auth::verify_jwt;
use crate::cache::MessageCache;
use crate::cache::invalidated;
use crate::cache::same_cache;
use crate::cache::served_from_cache;
use crate::cache::stored_into;
use crate::fanout::fanout_reaches;
use crate::fanout::is_event_push;
use crate::fanout::plan_fanout;
use crate::fanout::pushes_to;
use crate::ids::format_uuid;
use crate::ids::parse_uuid;
use crate::ids::uuid_parse;
use crate::ids::uuid_text;
use crate::model::NewMessage;
use crate::model::copy_history;
use crate::model::history_view;
use crate::protocol::Action;
use crate::protocol::Command;
use crate::protocol::ErrorKind;
use crate::protocol::Reply;
use crate::protocol::StorageQuery;
use crate::protocol::StorageResult;
use crate::protocol::is_error;
use crate::protocol::is_error_with;
use crate::protocol::lone_error;
use crate::protocol::lone_error_with;
use crate::protocol::opt_text;
use crate::session::SessionStore;
use crate::session::registered;
use crate::session::same_sessions;
use crate::session::unregistered;

verus! {

/// What one connection's dispatcher is waiting for from storage; `Idle`
/// between commands.
#[derive(Debug)]
pub enum Pending {
    Idle,
    /// A `register` command's user row is being created.
    RegisterWait,
    /// A `login` command's user row is being looked up.
    LoginWait { password: String },
    /// A send's membership check is out.
    SendCheck { msg: NewMessage, me: u128 },
    /// A send's row is being inserted.
    SendInsert { me: u128 },
    /// The sender's display name for the fan-out event is being looked up.
    SendName { chat_id: u128, body: String },
    /// The recipient list for the fan-out is being fetched.
    SendMembers { chat_id: u128, body: String, from: String },
    /// A history read's membership check is out.
    HistoryCheck { chat_id: u128 },
    /// A history read missed the cache and storage is recomputing.
    HistoryFetch { chat_id: u128 },
    EditWait,
    DeleteWait,
    ReactWait,
    /// The message to forward is being fetched; the copy will reference it.
    FwdFetch { chat_id: u128, original_id: u128, me: u128 },
    /// The forwarded copy is being inserted.
    FwdInsert,
    CreateWait,
    /// An add-member command: is the requester in the conversation?
    AddCheckMember { chat_id: u128, target: u128 },
    /// An add-member command: does the target user exist?
    AddCheckExists { chat_id: u128, target: u128 },
    AddInsert,
    /// A remove-member command: does the target user exist?
    RemCheckExists { chat_id: u128, target: u128 },
    /// A remove-member command: is the target in the conversation?
    RemCheckMember { chat_id: u128, target: u128 },
    RemDelete,
    MembersWait,
    ChatsWait,
}

/// One connection's dispatcher state.
#[derive(Debug)]
pub struct ConnState {
    /// The connection this machine belongs to, as registered in the session
    /// store.
    pub conn: u64,
    /// The authenticated identity, once one of `auth`, `register` or `login`
    /// has succeeded.
    pub identity: Option<u128>,
    /// The storage answer the machine is waiting for.
    pub pending: Pending,
}

/// The identifier a wire field holds: absent or unparsable is `None`.
pub open spec fn wire_id(o: Option<String>) -> Option<u128> {
    match o {
        None => None,
        Some(s) => uuid_parse(s@),
    }
}

/// An optional identifier field: `None` for a malformed text, `Some(None)`
/// for an absent field.
pub open spec fn wire_opt_id(o: Option<String>) -> Option<Option<u128>> {
    match o {
        None => Some(None),
        Some(s) => match uuid_parse(s@) {
            Some(v) => Some(Some(v)),
            None => None,
        },
    }
}

/// The name a conversation gets when the creator supplies none.
pub open spec fn default_chat_name() -> Seq<char> {
    "Unnamed group"@
}

/// The reaction a bare `react` command applies.
pub open spec fn default_emoji() -> Seq<char> {
    "\u{1F44D}"@
}

/// The display name used when the sender's name cannot be resolved.
pub open spec fn unknown_name() -> Seq<char> {
    "unknown"@
}

/// Neither the session store nor the cache changed.
pub open spec fn quiet(
    s0: SessionStore,
    s1: SessionStore,
    c0: MessageCache,
    c1: MessageCache,
) -> bool {
    same_sessions(s0, s1) && same_cache(c0, c1)
}

/// The whole step was read-only: connection state, session store and cache
/// all kept.
pub open spec fn stays(
    pre: ConnState,
    post: ConnState,
    s0: SessionStore,
    s1: SessionStore,
    c0: MessageCache,
    c1: MessageCache,
) -> bool {
    post == pre && quiet(s0, s1, c0, c1)
}

/// The connection's ownership did not move: same connection, same identity.
pub open spec fn keeps_identity(pre: ConnState, post: ConnState) -> bool {
    post.conn == pre.conn && post.identity == pre.identity
}

/// A successful authentication as `id` (by any of the three commands): the
/// identity is adopted, the connection is registered in the session store,
/// and the reply is either the issued token's or a plain acknowledgement.
pub open spec fn authed_as(
    pre: ConnState,
    post: ConnState,
    s0: SessionStore,
    s1: SessionStore,
    id: u128,
) -> bool {
    &&& post.conn == pre.conn
    &&& post.identity == Some(id)
    &&& post.pending is Idle
    &&& registered(s0, s1, id, pre.conn)
}

/// The reply that hands a fresh token out: its claims name the identity's
/// canonical text and the expiry instant for an issue at `now`.
pub open spec fn token_reply(acts: Seq<Action>, id: u128, now: u64, secret: Seq<char>) -> bool {
    &&& acts.len() == 1
    &&& (acts[0] matches Action::Reply(Reply::AuthOk { token }) && jwt_claims(
        token@,
        secret,
    ) == Some((uuid_text(id), token_expiry(now))))
}

/// What [`ConnState::on_command`] does for each command, exactly: the reply
/// or query it produces, the state it moves to, and what it leaves alone.
pub open spec fn command_post(
    pre: ConnState,
    post: ConnState,
    s0: SessionStore,
    s1: SessionStore,
    c0: MessageCache,
    c1: MessageCache,
    now: u64,
    secret: Seq<char>,
    cmd: Command,
    acts: Seq<Action>,
) -> bool {
    match cmd {
        Command::Auth { token } => {
            ||| {
                // turned away: bad signature, expired, or a subject that is
                // no identity; the connection is told and closed
                &&& acts.len() == 2
                &&& is_error(acts[0], ErrorKind::InvalidToken)
                &&& acts[1] is Close
                &&& stays(pre, post, s0, s1, c0, c1)
            }
            ||| (match jwt_claims(opt_text(token), secret) {
                Some((sub, _exp)) => match uuid_parse(sub) {
                    Some(id) => {
                        &&& authed_as(pre, post, s0, s1, id)
                        &&& same_cache(c0, c1)
                        &&& acts.len() == 1
                        &&& acts[0] matches Action::Reply(Reply::Authenticated)
                    },
                    None => false,
                },
                None => false,
            })
        },
        Command::Register { payload } => match payload {
            None => lone_error(acts, ErrorKind::InvalidPayload) && stays(pre, post, s0, s1, c0, c1),
            Some(u) => {
                ||| (lone_error(acts, ErrorKind::HashFailed) && stays(pre, post, s0, s1, c0, c1))
                ||| (exists|h: Seq<char>|
                    {
                        &&& #[trigger] bcrypt_accepts(u.password@, h) == Some(true)
                        &&& acts.len() == 1
                        &&& (acts[0] matches Action::Query(
                            StorageQuery::CreateUser { username, password_hash, public_key },
                        ) && username@ == u.username@ && password_hash@ == h && public_key@
                            == u.public_key@)
                        &&& keeps_identity(pre, post)
                        &&& post.pending is RegisterWait
                        &&& quiet(s0, s1, c0, c1)
                    })
            },
        },
        Command::Login { username, password } => {
            &&& acts.len() == 1
            &&& (acts[0] matches Action::Query(StorageQuery::FindUser { username: un }) && un@
                == opt_text(username))
            &&& keeps_identity(pre, post)
            &&& (post.pending matches Pending::LoginWait { password: pw } && pw@ == opt_text(
                password,
            ))
            &&& quiet(s0, s1, c0, c1)
        },
        Command::SendMessage { payload } => {
            if pre.identity is None {
                lone_error(acts, ErrorKind::Unauthorized) && stays(pre, post, s0, s1, c0, c1)
            } else {
                match payload {
                    None => lone_error(acts, ErrorKind::InvalidMessageFormat) && stays(
                        pre,
                        post,
                        s0,
                        s1,
                        c0,
                        c1,
                    ),
                    Some(p) => match (uuid_parse(p.chat_id@), wire_opt_id(p.reply_to_id), wire_opt_id(p.forwarded_from)) {
                        (Some(chat), Some(rep), Some(fwd)) => {
                            &&& pre.identity matches Some(me)
                            &&& acts.len() == 1
                            &&& (acts[0] matches Action::Query(
                                StorageQuery::IsMember { chat_id, user_id },
                            ) && chat_id == chat && user_id == me)
                            &&& keeps_identity(pre, post)
                            &&& (post.pending matches Pending::SendCheck { msg, me: m } && m
                                == me && msg.chat_id == chat && msg.body@ == p.body@
                                && msg.reply_to_id == rep && msg.forwarded_from == fwd)
                            &&& quiet(s0, s1, c0, c1)
                        },
                        _ => lone_error(acts, ErrorKind::InvalidMessageFormat) && stays(
                            pre,
                            post,
                            s0,
                            s1,
                            c0,
                            c1,
                        ),
                    },
                }
            }
        },
        Command::GetMessages { chat_id, limit: _ } => {
            if pre.identity is None {
                lone_error(acts, ErrorKind::Unauthorized) && stays(pre, post, s0, s1, c0, c1)
            } else {
                match wire_id(chat_id) {
                    None => lone_error(acts, ErrorKind::InvalidPayload) && stays(
                        pre,
                        post,
                        s0,
                        s1,
                        c0,
                        c1,
                    ),
                    Some(chat) => {
                        &&& pre.identity matches Some(me)
                        &&& acts.len() == 1
                        &&& (acts[0] matches Action::Query(
                            StorageQuery::IsMember { chat_id: qc, user_id },
                        ) && qc == chat && user_id == me)
                        &&& keeps_identity(pre, post)
                        &&& (post.pending matches Pending::HistoryCheck { chat_id: pc } && pc
                            == chat)
                        &&& quiet(s0, s1, c0, c1)
                    },
                }
            }
        },
        Command::EditMessage { message_id, new_body } => {
            if pre.identity is None {
                lone_error(acts, ErrorKind::Unauthorized) && stays(pre, post, s0, s1, c0, c1)
            } else {
                match wire_id(message_id) {
                    None => lone_error(acts, ErrorKind::InvalidPayload) && stays(
                        pre,
                        post,
                        s0,
                        s1,
                        c0,
                        c1,
                    ),
                    Some(mid) => {
                        &&& pre.identity matches Some(me)
                        &&& acts.len() == 1
                        &&& (acts[0] matches Action::Query(
                            StorageQuery::MarkEdited { message_id: qm, user_id, new_body: nb },
                        ) && qm == mid && user_id == me && nb@ == opt_text(new_body))
                        &&& keeps_identity(pre, post)
                        &&& post.pending is EditWait
                        &&& quiet(s0, s1, c0, c1)
                    },
                }
            }
        },
        Command::DeleteMessage { message_id, for_all } => {
            if pre.identity is None {
                lone_error(acts, ErrorKind::Unauthorized) && stays(pre, post, s0, s1, c0, c1)
            } else {
                match wire_id(message_id) {
                    None => lone_error(acts, ErrorKind::InvalidPayload) && stays(
                        pre,
                        post,
                        s0,
                        s1,
                        c0,
                        c1,
                    ),
                    Some(mid) => {
                        &&& pre.identity matches Some(me)
                        &&& acts.len() == 1
                        &&& (acts[0] matches Action::Query(
                            StorageQuery::MarkDeleted { message_id: qm, user_id, for_all: fa },
                        ) && qm == mid && user_id == me && fa == (for_all matches Some(true)))
                        &&& keeps_identity(pre, post)
                        &&& post.pending is DeleteWait
                        &&& quiet(s0, s1, c0, c1)
                    },
                }
            }
        },
        Command::React { message_id, emoji } => {
            if pre.identity is None {
                lone_error(acts, ErrorKind::Unauthorized) && stays(pre, post, s0, s1, c0, c1)
            } else {
                match wire_id(message_id) {
                    None => lone_error(acts, ErrorKind::InvalidPayload) && stays(
                        pre,
                        post,
                        s0,
                        s1,
                        c0,
                        c1,
                    ),
                    Some(mid) => {
                        &&& pre.identity matches Some(me)
                        &&& acts.len() == 1
                        &&& (acts[0] matches Action::Query(
                            StorageQuery::UpsertReaction { message_id: qm, user_id, emoji: em },
                        ) && qm == mid && user_id == me && (match emoji {
                            Some(e) => em@ == e@,
                            None => em@ == default_emoji(),
                        }))
                        &&& keeps_identity(pre, post)
                        &&& post.pending is ReactWait
                        &&& quiet(s0, s1, c0, c1)
                    },
                }
            }
        },
        Command::ForwardMessage { chat_id, original_message_id } => {
            if pre.identity is None {
                lone_error(acts, ErrorKind::Unauthorized) && stays(pre, post, s0, s1, c0, c1)
            } else {
                match (wire_id(chat_id), wire_id(original_message_id)) {
                    (Some(chat), Some(orig)) => {
                        &&& pre.identity matches Some(me)
                        &&& acts.len() == 1
                        &&& (acts[0] matches Action::Query(
                            StorageQuery::FetchOriginal { message_id: qm },
                        ) && qm == orig)
                        &&& keeps_identity(pre, post)
                        &&& (post.pending matches Pending::FwdFetch {
                            chat_id: pc,
                            original_id: po,
                            me: m,
                        } && pc == chat && po == orig && m == me)
                        &&& quiet(s0, s1, c0, c1)
                    },
                    _ => lone_error(acts, ErrorKind::InvalidPayload) && stays(
                        pre,
                        post,
                        s0,
                        s1,
                        c0,
                        c1,
                    ),
                }
            }
        },
        Command::CreateChat { name, members: _ } => {
            // the listed members are not members yet: each joins only through
            // a later add-member command (the reply's conversation id is what
            // those commands target)
            if pre.identity is None {
                lone_error(acts, ErrorKind::Unauthorized) && stays(pre, post, s0, s1, c0, c1)
            } else {
                &&& pre.identity matches Some(me)
                &&& acts.len() == 1
                &&& (acts[0] matches Action::Query(StorageQuery::CreateChat { name: n, creator })
                    && (match name {
                    Some(given) => n@ == given@,
                    None => n@ == default_chat_name(),
                }) && creator == me)
                &&& keeps_identity(pre, post)
                &&& post.pending is CreateWait
                &&& quiet(s0, s1, c0, c1)
            }
        },
        Command::AddToChat { chat_id, user_id } => {
            if pre.identity is None {
                lone_error(acts, ErrorKind::Unauthorized) && stays(pre, post, s0, s1, c0, c1)
            } else {
                match (wire_id(chat_id), wire_id(user_id)) {
                    (Some(chat), Some(target)) => {
                        &&& pre.identity matches Some(me)
                        &&& acts.len() == 1
                        &&& (acts[0] matches Action::Query(
                            StorageQuery::IsMember { chat_id: qc, user_id: qu },
                        ) && qc == chat && qu == me)
                        &&& keeps_identity(pre, post)
                        &&& (post.pending matches Pending::AddCheckMember { chat_id: pc, target: pt }
                            && pc == chat && pt == target)
                        &&& quiet(s0, s1, c0, c1)
                    },
                    _ => lone_error(acts, ErrorKind::InvalidPayload) && stays(
                        pre,
                        post,
                        s0,
                        s1,
                        c0,
                        c1,
                    ),
                }
            }
        },
        Command::RemoveFromChat { chat_id, user_id } => {
            if pre.identity is None {
                lone_error(acts, ErrorKind::Unauthorized) && stays(pre, post, s0, s1, c0, c1)
            } else {
                match (wire_id(chat_id), wire_id(user_id)) {
                    (Some(chat), Some(target)) => {
                        &&& acts.len() == 1
                        &&& (acts[0] matches Action::Query(
                            StorageQuery::UserExists { user_id: qu },
                        ) && qu == target)
                        &&& keeps_identity(pre, post)
                        &&& (post.pending matches Pending::RemCheckExists { chat_id: pc, target: pt }
                            && pc == chat && pt == target)
                        &&& quiet(s0, s1, c0, c1)
                    },
                    _ => lone_error(acts, ErrorKind::InvalidPayload) && stays(
                        pre,
                        post,
                        s0,
                        s1,
                        c0,
                        c1,
                    ),
                }
            }
        },
        Command::GetChatMembers { chat_id } => {
            // open to unauthenticated connections as well
            match wire_id(chat_id) {
                None => lone_error(acts, ErrorKind::InvalidPayload) && stays(
                    pre,
                    post,
                    s0,
                    s1,
                    c0,
                    c1,
                ),
                Some(chat) => {
                    &&& acts.len() == 1
                    &&& (acts[0] matches Action::Query(StorageQuery::ChatMembers { chat_id: qc })
                        && qc == chat)
                    &&& keeps_identity(pre, post)
                    &&& post.pending is MembersWait
                    &&& quiet(s0, s1, c0, c1)
                },
            }
        },
        Command::GetMyChats => {
            if pre.identity is None {
                lone_error(acts, ErrorKind::Unauthorized) && stays(pre, post, s0, s1, c0, c1)
            } else {
                &&& pre.identity matches Some(me)
                &&& acts.len() == 1
                &&& (acts[0] matches Action::Query(StorageQuery::ListUserChats { user_id })
                    && user_id == me)
                &&& keeps_identity(pre, post)
                &&& post.pending is ChatsWait
                &&& quiet(s0, s1, c0, c1)
            }
        },
        Command::Unknown { text } => {
            &&& acts.len() == 1
            &&& (acts[0] matches Action::Reply(Reply::Echo { text: t }) && t@ == text@)
            &&& stays(pre, post, s0, s1, c0, c1)
        },
    }
}

fn error_reply(k: ErrorKind) -> (a: Action)
    ensures
        is_error(a, k),
{
    Action::Reply(Reply::Failure { kind: k, detail: String::new() })
}

fn error_with(k: ErrorKind, detail: String) -> (a: Action)
    ensures
        is_error_with(a, k, detail@),
{
    Action::Reply(Reply::Failure { kind: k, detail })
}

fn one_action(a: Action) -> (v: Vec<Action>)
    ensures
        v@.len() == 1,
        v@[0] == a,
{
    let mut v: Vec<Action> = Vec::new();
    v.push(a);
    v
}

fn two_actions(a: Action, b: Action) -> (v: Vec<Action>)
    ensures
        v@.len() == 2,
        v@[0] == a,
        v@[1] == b,
{
    let mut v: Vec<Action> = Vec::new();
    v.push(a);
    v.push(b);
    v
}

fn parse_wire_id(o: &Option<String>) -> (r: Option<u128>)
    ensures
        r == wire_id(*o),
{
    match o {
        None => None,
        Some(s) => parse_uuid(s.as_str()),
    }
}

fn parse_wire_opt(o: &Option<String>) -> (r: Option<Option<u128>>)
    ensures
        r == wire_opt_id(*o),
{
    match o {
        None => Some(None),
        Some(s) => match parse_uuid(s.as_str()) {
            Some(v) => Some(Some(v)),
            None => None,
        },
    }
}

impl ConnState {
    /// A fresh, unauthenticated machine for connection `conn`.
    pub fn new(conn: u64) -> (r: ConnState)
        ensures
            r.conn == conn,
            r.identity is None,
            r.pending is Idle,
    {
        ConnState { conn, identity: None, pending: Pending::Idle }
    }

    /// Dispatches one inbound command: validates and authorizes it against
    /// the connection's state, and produces the reply or the storage query
    /// whose answer [`ConnState::on_storage`] will take. `now` is the current
    /// unix time in seconds; `secret` signs and checks tokens.
    pub fn on_command(
        &mut self,
        sessions: &mut SessionStore,
        cache: &mut MessageCache,
        now: u64,
        secret: &str,
        cmd: Command,
    ) -> (acts: Vec<Action>)
        requires
            old(self).pending is Idle,
            old(sessions).wf(),
            old(cache).wf(),
        ensures
            final(sessions).wf(),
            final(cache).wf(),
            command_post(
                *old(self),
                *final(self),
                *old(sessions),
                *final(sessions),
                *old(cache),
                *final(cache),
                now,
                secret@,
                cmd,
                acts@,
            ),
    {
        match cmd {
            Command::Auth { token } => {
                let tok = match token {
                    Some(t) => t,
                    None => String::new(),
                };
                match verify_jwt(tok.as_str(), secret) {
                    Some(claims) => match parse_uuid(claims.sub.as_str()) {
                        Some(id) => {
                            self.identity = Some(id);
                            sessions.register(id, self.conn);
                            one_action(Action::Reply(Reply::Authenticated))
                        },
                        None => two_actions(error_reply(ErrorKind::InvalidToken), Action::Close),
                    },
                    None => two_actions(error_reply(ErrorKind::InvalidToken), Action::Close),
                }
            },
            Command::Register { payload } => match payload {
                None => one_action(error_reply(ErrorKind::InvalidPayload)),
                Some(u) => match hash_password(u.password.as_str()) {
                    None => one_action(error_reply(ErrorKind::HashFailed)),
                    Some(h) => {
                        self.pending = Pending::RegisterWait;
                        one_action(
                            Action::Query(
                                StorageQuery::CreateUser {
                                    username: u.username,
                                    password_hash: h,
                                    public_key: u.public_key,
                                },
                            ),
                        )
                    },
                },
            },
            Command::Login { username, password } => {
                let un = match username {
                    Some(s) => s,
                    None => String::new(),
                };
                let pw = match password {
                    Some(s) => s,
                    None => String::new(),
                };
                self.pending = Pending::LoginWait { password: pw };
                one_action(Action::Query(StorageQuery::FindUser { username: un }))
            },
            Command::SendMessage { payload } => match self.identity {
                None => one_action(error_reply(ErrorKind::Unauthorized)),
                Some(me) => match payload {
                    None => one_action(error_reply(ErrorKind::InvalidMessageFormat)),
                    Some(p) => {
                        let chat = parse_uuid(p.chat_id.as_str());
                        let rep = parse_wire_opt(&p.reply_to_id);
                        let fwd = parse_wire_opt(&p.forwarded_from);
                        match (chat, rep, fwd) {
                            (Some(chat), Some(rep), Some(fwd)) => {
                                let msg = NewMessage {
                                    chat_id: chat,
                                    body: p.body,
                                    reply_to_id: rep,
                                    forwarded_from: fwd,
                                };
                                self.pending = Pending::SendCheck { msg, me };
                                one_action(
                                    Action::Query(
                                        StorageQuery::IsMember { chat_id: chat, user_id: me },
                                    ),
                                )
                            },
                            _ => one_action(error_reply(ErrorKind::InvalidMessageFormat)),
                        }
                    },
                },
            },
            Command::GetMessages { chat_id, limit: _ } => match self.identity {
                None => one_action(error_reply(ErrorKind::Unauthorized)),
                Some(me) => match parse_wire_id(&chat_id) {
                    None => one_action(error_reply(ErrorKind::InvalidPayload)),
                    Some(chat) => {
                        self.pending = Pending::HistoryCheck { chat_id: chat };
                        one_action(
                            Action::Query(StorageQuery::IsMember { chat_id: chat, user_id: me }),
                        )
                    },
                },
            },
            Command::EditMessage { message_id, new_body } => match self.identity {
                None => one_action(error_reply(ErrorKind::Unauthorized)),
                Some(me) => match parse_wire_id(&message_id) {
                    None => one_action(error_reply(ErrorKind::InvalidPayload)),
                    Some(mid) => {
                        let nb = match new_body {
                            Some(s) => s,
                            None => String::new(),
                        };
                        self.pending = Pending::EditWait;
                        one_action(
                            Action::Query(
                                StorageQuery::MarkEdited {
                                    message_id: mid,
                                    user_id: me,
                                    new_body: nb,
                                },
                            ),
                        )
                    },
                },
            },
            Command::DeleteMessage { message_id, for_all } => match self.identity {
                None => one_action(error_reply(ErrorKind::Unauthorized)),
                Some(me) => match parse_wire_id(&message_id) {
                    None => one_action(error_reply(ErrorKind::InvalidPayload)),
                    Some(mid) => {
                        let fa = match for_all {
                            Some(b) => b,
                            None => false,
                        };
                        self.pending = Pending::DeleteWait;
                        one_action(
                            Action::Query(
                                StorageQuery::MarkDeleted {
                                    message_id: mid,
                                    user_id: me,
                                    for_all: fa,
                                },
                            ),
                        )
                    },
                },
            },
            Command::React { message_id, emoji } => match self.identity {
                None => one_action(error_reply(ErrorKind::Unauthorized)),
                Some(me) => match parse_wire_id(&message_id) {
                    None => one_action(error_reply(ErrorKind::InvalidPayload)),
                    Some(mid) => {
                        let em = match emoji {
                            Some(e) => e,
                            None => "\u{1F44D}".to_owned(),
                        };
                        self.pending = Pending::ReactWait;
                        one_action(
                            Action::Query(
                                StorageQuery::UpsertReaction {
                                    message_id: mid,
                                    user_id: me,
                                    emoji: em,
                                },
                            ),
                        )
                    },
                },
            },
            Command::ForwardMessage { chat_id, original_message_id } => match self.identity {
                None => one_action(error_reply(ErrorKind::Unauthorized)),
                Some(me) => match (parse_wire_id(&chat_id), parse_wire_id(&original_message_id)) {
                    (Some(chat), Some(orig)) => {
                        self.pending = Pending::FwdFetch { chat_id: chat, original_id: orig, me };
                        one_action(Action::Query(StorageQuery::FetchOriginal { message_id: orig }))
                    },
                    _ => one_action(error_reply(ErrorKind::InvalidPayload)),
                },
            },
            Command::CreateChat { name, members: _ } => match self.identity {
                None => one_action(error_reply(ErrorKind::Unauthorized)),
                Some(me) => {
                    let chat_name = match name {
                        Some(n) => n,
                        None => "Unnamed group".to_owned(),
                    };
                    self.pending = Pending::CreateWait;
                    one_action(
                        Action::Query(StorageQuery::CreateChat { name: chat_name, creator: me }),
                    )
                },
            },
            Command::AddToChat { chat_id, user_id } => match self.identity {
                None => one_action(error_reply(ErrorKind::Unauthorized)),
                Some(me) => match (parse_wire_id(&chat_id), parse_wire_id(&user_id)) {
                    (Some(chat), Some(target)) => {
                        self.pending = Pending::AddCheckMember { chat_id: chat, target };
                        one_action(
                            Action::Query(StorageQuery::IsMember { chat_id: chat, user_id: me }),
                        )
                    },
                    _ => one_action(error_reply(ErrorKind::InvalidPayload)),
                },
            },
            Command::RemoveFromChat { chat_id, user_id } => match self.identity {
                None => one_action(error_reply(ErrorKind::Unauthorized)),
                Some(_) => match (parse_wire_id(&chat_id), parse_wire_id(&user_id)) {
                    (Some(chat), Some(target)) => {
                        self.pending = Pending::RemCheckExists { chat_id: chat, target };
                        one_action(Action::Query(StorageQuery::UserExists { user_id: target }))
                    },
                    _ => one_action(error_reply(ErrorKind::InvalidPayload)),
                },
            },
            Command::GetChatMembers { chat_id } => match parse_wire_id(&chat_id) {
                None => one_action(error_reply(ErrorKind::InvalidPayload)),
                Some(chat) => {
                    self.pending = Pending::MembersWait;
                    one_action(Action::Query(StorageQuery::ChatMembers { chat_id: chat }))
                },
            },
            Command::GetMyChats => match self.identity {
                None => one_action(error_reply(ErrorKind::Unauthorized)),
                Some(me) => {
                    self.pending = Pending::ChatsWait;
                    one_action(Action::Query(StorageQuery::ListUserChats { user_id: me }))
                },
            },
            Command::Unknown { text } => one_action(Action::Reply(Reply::Echo { text })),
        }
    }
}

/// The machine went back to waiting for a command, keeping its identity.
pub open spec fn idle_keep(pre: ConnState, post: ConnState) -> bool {
    post.conn == pre.conn && post.identity == pre.identity && post.pending is Idle
}

/// A storage answer that does not match what the machine was waiting for is
/// dropped: no action, back to idle, nothing else touched.
pub open spec fn dropped(
    pre: ConnState,
    post: ConnState,
    s0: SessionStore,
    s1: SessionStore,
    c0: MessageCache,
    c1: MessageCache,
    acts: Seq<Action>,
) -> bool {
    acts.len() == 0 && idle_keep(pre, post) && quiet(s0, s1, c0, c1)
}

/// The actions are a single login rejection naming `why`.
pub open spec fn login_rejected(acts: Seq<Action>, why: AuthFailure) -> bool {
    acts.len() == 1 && (acts[0] matches Action::Reply(Reply::LoginRejected { why: w }) && w
        == why)
}

/// What [`ConnState::on_storage`] does with each storage answer, given what
/// the machine was waiting for, exactly.
pub open spec fn storage_post(
    pre: ConnState,
    post: ConnState,
    s0: SessionStore,
    s1: SessionStore,
    c0: MessageCache,
    c1: MessageCache,
    now: u64,
    secret: Seq<char>,
    res: StorageResult,
    acts: Seq<Action>,
) -> bool {
    match pre.pending {
        Pending::Idle => dropped(pre, post, s0, s1, c0, c1, acts),
        Pending::RegisterWait => match res {
            StorageResult::UserCreated(r) => match r {
                Ok(user) => {
                    &&& authed_as(pre, post, s0, s1, user.id)
                    &&& same_cache(c0, c1)
                    &&& token_reply(acts, user.id, now, secret)
                },
                Err(e) => lone_error_with(acts, ErrorKind::RegisterFailed, e@) && idle_keep(
                    pre,
                    post,
                ) && quiet(s0, s1, c0, c1),
            },
            _ => dropped(pre, post, s0, s1, c0, c1, acts),
        },
        Pending::LoginWait { password } => match res {
            StorageResult::UserFound(r) => match r {
                Err(e) => lone_error_with(acts, ErrorKind::DbError, e@) && idle_keep(pre, post)
                    && quiet(s0, s1, c0, c1),
                Ok(None) => login_rejected(acts, AuthFailure::UserNotFound) && idle_keep(pre, post)
                    && quiet(s0, s1, c0, c1),
                Ok(Some(u)) => match bcrypt_accepts(password@, u.password_hash@) {
                    Some(true) => {
                        &&& authed_as(pre, post, s0, s1, u.id)
                        &&& same_cache(c0, c1)
                        &&& token_reply(acts, u.id, now, secret)
                    },
                    Some(false) => login_rejected(acts, AuthFailure::WrongPassword) && idle_keep(
                        pre,
                        post,
                    ) && quiet(s0, s1, c0, c1),
                    None => login_rejected(acts, AuthFailure::HashInvalid) && idle_keep(pre, post)
                        && quiet(s0, s1, c0, c1),
                },
            },
            _ => dropped(pre, post, s0, s1, c0, c1, acts),
        },
        Pending::SendCheck { msg, me } => match res {
            StorageResult::IsMember(r) => match r {
                Ok(true) => {
                    &&& acts.len() == 1
                    &&& (acts[0] matches Action::Query(
                        StorageQuery::InsertMessage { msg: m, sender_id },
                    ) && m == msg && sender_id == me)
                    &&& keeps_identity(pre, post)
                    &&& (post.pending matches Pending::SendInsert { me: m2 } && m2 == me)
                    &&& quiet(s0, s1, c0, c1)
                },
                Ok(false) => lone_error(acts, ErrorKind::NotInChat) && idle_keep(pre, post)
                    && quiet(s0, s1, c0, c1),
                Err(e) => lone_error_with(acts, ErrorKind::CheckFailed, e@) && idle_keep(pre, post)
                    && quiet(s0, s1, c0, c1),
            },
            _ => dropped(pre, post, s0, s1, c0, c1, acts),
        },
        Pending::SendInsert { me } => match res {
            StorageResult::MessageInserted(r) => match r {
                Ok(stored) => {
                    // the write is committed: drop the conversation's cached
                    // history before anything else becomes observable
                    &&& invalidated(c0, c1, stored.chat_id)
                    &&& same_sessions(s0, s1)
                    &&& acts.len() == 2
                    &&& (acts[0] matches Action::Reply(Reply::MessageSaved { message_id, timestamp })
                        && message_id == stored.id && timestamp == stored.created_at)
                    &&& (acts[1] matches Action::Query(StorageQuery::GetUsername { user_id })
                        && user_id == me)
                    &&& keeps_identity(pre, post)
                    &&& (post.pending matches Pending::SendName { chat_id, body } && chat_id
                        == stored.chat_id && body@ == stored.body@)
                },
                Err(e) => lone_error_with(acts, ErrorKind::DbError, e@) && idle_keep(pre, post)
                    && quiet(s0, s1, c0, c1),
            },
            _ => dropped(pre, post, s0, s1, c0, c1, acts),
        },
        Pending::SendName { chat_id, body } => match res {
            StorageResult::Username(r) => {
                &&& acts.len() == 1
                &&& (acts[0] matches Action::Query(StorageQuery::ChatMembers { chat_id: qc })
                    && qc == chat_id)
                &&& keeps_identity(pre, post)
                &&& (post.pending matches Pending::SendMembers { chat_id: pc, body: b, from: f }
                    && pc == chat_id && b@ == body@ && (match r {
                    Ok(n) => f@ == n@,
                    Err(_) => f@ == unknown_name(),
                }))
                &&& quiet(s0, s1, c0, c1)
            },
            _ => dropped(pre, post, s0, s1, c0, c1, acts),
        },
        Pending::SendMembers { chat_id, body, from } => match res {
            StorageResult::ChatMembers(r) => {
                &&& forall|k: int|
                    0 <= k < acts.len() ==> is_event_push(#[trigger] acts[k], chat_id, from@, body@)
                &&& forall|c: u64| #[trigger] pushes_to(acts, c) <==> fanout_reaches(
                    s1,
                    match r {
                        Ok(v) => v@,
                        Err(_) => Seq::empty(),
                    },
                    c,
                )
                &&& idle_keep(pre, post)
                &&& quiet(s0, s1, c0, c1)
            },
            _ => dropped(pre, post, s0, s1, c0, c1, acts),
        },
        Pending::HistoryCheck { chat_id } => match res {
            StorageResult::IsMember(r) => match r {
                Ok(true) => match served_from_cache(c0, chat_id, now) {
                    Some(h) => {
                        &&& acts.len() == 1
                        &&& (acts[0] matches Action::Reply(
                            Reply::MessageHistory { chat_id: rc, messages },
                        ) && rc == chat_id && history_view(messages@) == h)
                        &&& idle_keep(pre, post)
                        &&& quiet(s0, s1, c0, c1)
                    },
                    None => {
                        &&& acts.len() == 1
                        &&& (acts[0] matches Action::Query(
                            StorageQuery::FetchHistory { chat_id: qc },
                        ) && qc == chat_id)
                        &&& keeps_identity(pre, post)
                        &&& (post.pending matches Pending::HistoryFetch { chat_id: pc } && pc
                            == chat_id)
                        &&& quiet(s0, s1, c0, c1)
                    },
                },
                _ => lone_error(acts, ErrorKind::NotInChat) && idle_keep(pre, post) && quiet(
                    s0,
                    s1,
                    c0,
                    c1,
                ),
            },
            _ => dropped(pre, post, s0, s1, c0, c1, acts),
        },
        Pending::HistoryFetch { chat_id } => match res {
            StorageResult::History(r) => match r {
                Ok(msgs) => {
                    &&& stored_into(c0, c1, chat_id, history_view(msgs@), now)
                    &&& same_sessions(s0, s1)
                    &&& acts.len() == 1
                    &&& (acts[0] matches Action::Reply(
                        Reply::MessageHistory { chat_id: rc, messages },
                    ) && rc == chat_id && history_view(messages@) == history_view(msgs@))
                    &&& idle_keep(pre, post)
                },
                Err(e) => lone_error_with(acts, ErrorKind::DbError, e@) && idle_keep(pre, post)
                    && quiet(s0, s1, c0, c1),
            },
            _ => dropped(pre, post, s0, s1, c0, c1, acts),
        },
        Pending::EditWait => match res {
            StorageResult::EditApplied(r) => match r {
                Ok(Some(chat)) => {
                    &&& invalidated(c0, c1, chat)
                    &&& same_sessions(s0, s1)
                    &&& acts.len() == 1
                    &&& acts[0] matches Action::Reply(Reply::MessageEdited)
                    &&& idle_keep(pre, post)
                },
                // zero rows touched: the requester is not the sender (or no
                // such message); surface the failure, never a false success
                Ok(None) => lone_error(acts, ErrorKind::EditFailed) && idle_keep(pre, post)
                    && quiet(s0, s1, c0, c1),
                Err(e) => lone_error_with(acts, ErrorKind::EditFailed, e@) && idle_keep(pre, post)
                    && quiet(s0, s1, c0, c1),
            },
            _ => dropped(pre, post, s0, s1, c0, c1, acts),
        },
        Pending::DeleteWait => match res {
            StorageResult::DeleteApplied(r) => match r {
                Ok(Some(chat)) => {
                    &&& invalidated(c0, c1, chat)
                    &&& same_sessions(s0, s1)
                    &&& acts.len() == 1
                    &&& acts[0] matches Action::Reply(Reply::MessageDeleted)
                    &&& idle_keep(pre, post)
                },
                Ok(None) => lone_error(acts, ErrorKind::DeleteFailed) && idle_keep(pre, post)
                    && quiet(s0, s1, c0, c1),
                Err(e) => lone_error_with(acts, ErrorKind::DeleteFailed, e@) && idle_keep(pre, post)
                    && quiet(s0, s1, c0, c1),
            },
            _ => dropped(pre, post, s0, s1, c0, c1, acts),
        },
        Pending::ReactWait => match res {
            StorageResult::ReactionSaved(r) => match r {
                Ok(_) => acts.len() == 1 && (acts[0] matches Action::Reply(Reply::ReactionSet))
                    && idle_keep(pre, post) && quiet(s0, s1, c0, c1),
                Err(e) => lone_error_with(acts, ErrorKind::ReactionFailed, e@) && idle_keep(
                    pre,
                    post,
                ) && quiet(s0, s1, c0, c1),
            },
            _ => dropped(pre, post, s0, s1, c0, c1, acts),
        },
        Pending::FwdFetch { chat_id, original_id, me } => match res {
            StorageResult::Original(r) => match r {
                Ok(Some(body)) => {
                    &&& acts.len() == 1
                    &&& (acts[0] matches Action::Query(
                        StorageQuery::InsertMessage { msg, sender_id },
                    ) && sender_id == me && msg.chat_id == chat_id && msg.body@ == body@
                        && msg.reply_to_id is None && msg.forwarded_from == Some(original_id))
                    &&& keeps_identity(pre, post)
                    &&& post.pending is FwdInsert
                    &&& quiet(s0, s1, c0, c1)
                },
                Ok(None) => lone_error(acts, ErrorKind::ForwardFailed) && idle_keep(pre, post)
                    && quiet(s0, s1, c0, c1),
                Err(e) => lone_error_with(acts, ErrorKind::ForwardFailed, e@) && idle_keep(
                    pre,
                    post,
                ) && quiet(s0, s1, c0, c1),
            },
            _ => dropped(pre, post, s0, s1, c0, c1, acts),
        },
        Pending::FwdInsert => match res {
            StorageResult::MessageInserted(r) => match r {
                Ok(stored) => {
                    &&& invalidated(c0, c1, stored.chat_id)
                    &&& same_sessions(s0, s1)
                    &&& acts.len() == 1
                    &&& (acts[0] matches Action::Reply(
                        Reply::MessageForwarded { message_id, timestamp, forwarded_from },
                    ) && message_id == stored.id && timestamp == stored.created_at
                        && forwarded_from == stored.forwarded_from)
                    &&& idle_keep(pre, post)
                },
                Err(e) => lone_error_with(acts, ErrorKind::ForwardFailed, e@) && idle_keep(
                    pre,
                    post,
                ) && quiet(s0, s1, c0, c1),
            },
            _ => dropped(pre, post, s0, s1, c0, c1, acts),
        },
        Pending::CreateWait => match res {
            StorageResult::ChatCreated(r) => match r {
                Ok(cid) => acts.len() == 1 && (acts[0] matches Action::Reply(
                    Reply::ChatCreated { chat_id },
                ) && chat_id == cid) && idle_keep(pre, post) && quiet(s0, s1, c0, c1),
                Err(e) => lone_error_with(acts, ErrorKind::CreateChatFailed, e@) && idle_keep(
                    pre,
                    post,
                ) && quiet(s0, s1, c0, c1),
            },
            _ => dropped(pre, post, s0, s1, c0, c1, acts),
        },
        Pending::AddCheckMember { chat_id, target } => match res {
            StorageResult::IsMember(r) => match r {
                Ok(true) => {
                    &&& acts.len() == 1
                    &&& (acts[0] matches Action::Query(StorageQuery::UserExists { user_id })
                        && user_id == target)
                    &&& keeps_identity(pre, post)
                    &&& (post.pending matches Pending::AddCheckExists { chat_id: pc, target: pt }
                        && pc == chat_id && pt == target)
                    &&& quiet(s0, s1, c0, c1)
                },
                Ok(false) => lone_error(acts, ErrorKind::NotInChat) && idle_keep(pre, post)
                    && quiet(s0, s1, c0, c1),
                Err(e) => lone_error_with(acts, ErrorKind::CheckFailed, e@) && idle_keep(pre, post)
                    && quiet(s0, s1, c0, c1),
            },
            _ => dropped(pre, post, s0, s1, c0, c1, acts),
        },
        Pending::AddCheckExists { chat_id, target } => match res {
            StorageResult::UserIsKnown(r) => match r {
                Ok(true) => {
                    &&& acts.len() == 1
                    &&& (acts[0] matches Action::Query(
                        StorageQuery::AddMember { chat_id: qc, user_id },
                    ) && qc == chat_id && user_id == target)
                    &&& keeps_identity(pre, post)
                    &&& post.pending is AddInsert
                    &&& quiet(s0, s1, c0, c1)
                },
                Ok(false) => lone_error(acts, ErrorKind::UserNotFound) && idle_keep(pre, post)
                    && quiet(s0, s1, c0, c1),
                Err(e) => lone_error_with(acts, ErrorKind::UserCheckFailed, e@) && idle_keep(
                    pre,
                    post,
                ) && quiet(s0, s1, c0, c1),
            },
            _ => dropped(pre, post, s0, s1, c0, c1, acts),
        },
        Pending::AddInsert => match res {
            StorageResult::MemberAdded(r) => match r {
                Ok(_) => acts.len() == 1 && (acts[0] matches Action::Reply(Reply::UserAdded))
                    && idle_keep(pre, post) && quiet(s0, s1, c0, c1),
                Err(e) => lone_error_with(acts, ErrorKind::AddFailed, e@) && idle_keep(pre, post)
                    && quiet(s0, s1, c0, c1),
            },
            _ => dropped(pre, post, s0, s1, c0, c1, acts),
        },
        Pending::RemCheckExists { chat_id, target } => match res {
            StorageResult::UserIsKnown(r) => match r {
                Ok(true) => {
                    &&& acts.len() == 1
                    &&& (acts[0] matches Action::Query(
                        StorageQuery::IsMember { chat_id: qc, user_id },
                    ) && qc == chat_id && user_id == target)
                    &&& keeps_identity(pre, post)
                    &&& (post.pending matches Pending::RemCheckMember { chat_id: pc, target: pt }
                        && pc == chat_id && pt == target)
                    &&& quiet(s0, s1, c0, c1)
                },
                Ok(false) => lone_error(acts, ErrorKind::UserNotFound) && idle_keep(pre, post)
                    && quiet(s0, s1, c0, c1),
                Err(e) => lone_error_with(acts, ErrorKind::UserCheckFailed, e@) && idle_keep(
                    pre,
                    post,
                ) && quiet(s0, s1, c0, c1),
            },
            _ => dropped(pre, post, s0, s1, c0, c1, acts),
        },
        Pending::RemCheckMember { chat_id, target } => match res {
            StorageResult::IsMember(r) => match r {
                Ok(true) => {
                    &&& acts.len() == 1
                    &&& (acts[0] matches Action::Query(
                        StorageQuery::RemoveMember { chat_id: qc, user_id },
                    ) && qc == chat_id && user_id == target)
                    &&& keeps_identity(pre, post)
                    &&& post.pending is RemDelete
                    &&& quiet(s0, s1, c0, c1)
                },
                Ok(false) => lone_error(acts, ErrorKind::UserNotInChat) && idle_keep(pre, post)
                    && quiet(s0, s1, c0, c1),
                Err(e) => lone_error_with(acts, ErrorKind::ChatCheckFailed, e@) && idle_keep(
                    pre,
                    post,
                ) && quiet(s0, s1, c0, c1),
            },
            _ => dropped(pre, post, s0, s1, c0, c1, acts),
        },
        Pending::RemDelete => match res {
            StorageResult::MemberRemoved(r) => match r {
                Ok(_) => acts.len() == 1 && (acts[0] matches Action::Reply(Reply::UserRemoved))
                    && idle_keep(pre, post) && quiet(s0, s1, c0, c1),
                Err(e) => lone_error_with(acts, ErrorKind::RemoveFailed, e@) && idle_keep(
                    pre,
                    post,
                ) && quiet(s0, s1, c0, c1),
            },
            _ => dropped(pre, post, s0, s1, c0, c1, acts),
        },
        Pending::MembersWait => match res {
            StorageResult::ChatMembers(r) => match r {
                Ok(v) => acts.len() == 1 && (acts[0] matches Action::Reply(
                    Reply::MembersList { members },
                ) && members == v) && idle_keep(pre, post) && quiet(s0, s1, c0, c1),
                Err(e) => lone_error_with(acts, ErrorKind::GetMembersFailed, e@) && idle_keep(
                    pre,
                    post,
                ) && quiet(s0, s1, c0, c1),
            },
            _ => dropped(pre, post, s0, s1, c0, c1, acts),
        },
        Pending::ChatsWait => match res {
            StorageResult::UserChats(r) => match r {
                Ok(v) => acts.len() == 1 && (acts[0] matches Action::Reply(
                    Reply::ChatList { chats },
                ) && chats == v) && idle_keep(pre, post) && quiet(s0, s1, c0, c1),
                Err(e) => lone_error_with(acts, ErrorKind::DbError, e@) && idle_keep(pre, post)
                    && quiet(s0, s1, c0, c1),
            },
            _ => dropped(pre, post, s0, s1, c0, c1, acts),
        },
    }
}

/// A send by a non-member is turned away: when the membership check answers
/// `false`, the only action is the `not_in_chat` error reply — no insert
/// query is issued, nothing is pushed, and neither the session store nor the
/// conversation's cached history is touched.
pub proof fn lemma_send_requires_membership(
    pre: ConnState,
    post: ConnState,
    s0: SessionStore,
    s1: SessionStore,
    c0: MessageCache,
    c1: MessageCache,
    now: u64,
    secret: Seq<char>,
    acts: Seq<Action>,
)
    requires
        pre.pending is SendCheck,
        storage_post(
            pre,
            post,
            s0,
            s1,
            c0,
            c1,
            now,
            secret,
            StorageResult::IsMember(Ok(false)),
            acts,
        ),
    ensures
        lone_error(acts, ErrorKind::NotInChat),
        forall|k: int| 0 <= k < acts.len() ==> !((#[trigger] acts[k]) matches Action::Query(_)),
        forall|k: int| 0 <= k < acts.len() ==> !((#[trigger] acts[k]) matches Action::Push { .. }),
        same_sessions(s0, s1),
        same_cache(c0, c1),
        idle_keep(pre, post),
{
}

/// Edit and delete authorization: storage updates a row only for the
/// message's own sender, and when it reports that no row matched the reply
/// surfaces the failure — never a false success — and no cached history is
/// invalidated.
pub proof fn lemma_edit_delete_require_author(
    pre: ConnState,
    post: ConnState,
    s0: SessionStore,
    s1: SessionStore,
    c0: MessageCache,
    c1: MessageCache,
    now: u64,
    secret: Seq<char>,
    res: StorageResult,
    acts: Seq<Action>,
)
    requires
        storage_post(pre, post, s0, s1, c0, c1, now, secret, res, acts),
        (pre.pending is EditWait && res matches StorageResult::EditApplied(Ok(None))) || (
        pre.pending is DeleteWait && res matches StorageResult::DeleteApplied(Ok(None))),
    ensures
        pre.pending is EditWait ==> lone_error(acts, ErrorKind::EditFailed),
        pre.pending is DeleteWait ==> lone_error(acts, ErrorKind::DeleteFailed),
        same_cache(c0, c1),
        idle_keep(pre, post),
{
}

impl ConnState {
    /// Adopts `id` as the connection's identity: registers the connection in
    /// the session store and issues the bearer token reply.
    fn adopt_identity(
        &mut self,
        sessions: &mut SessionStore,
        now: u64,
        secret: &str,
        id: u128,
    ) -> (acts: Vec<Action>)
        requires
            old(sessions).wf(),
        ensures
            final(sessions).wf(),
            final(self).conn == old(self).conn,
            final(self).identity == Some(id),
            final(self).pending == old(self).pending,
            registered(*old(sessions), *final(sessions), id, old(self).conn),
            token_reply(acts@, id, now, secret@),
    {
        self.identity = Some(id);
        sessions.register(id, self.conn);
        let id_text = format_uuid(id);
        let token = generate_jwt(id_text.as_str(), secret, now);
        one_action(Action::Reply(Reply::AuthOk { token }))
    }

    /// Feeds the machine the storage collaborator's answer to the query in
    /// flight: it produces the replies, the follow-up query, the cache
    /// update, or the fan-out pushes that the answer calls for, and is
    /// checked for every answer the collaborator could give.
    pub fn on_storage(
        &mut self,
        sessions: &mut SessionStore,
        cache: &mut MessageCache,
        now: u64,
        secret: &str,
        res: StorageResult,
    ) -> (acts: Vec<Action>)
        requires
            old(sessions).wf(),
            old(cache).wf(),
        ensures
            final(sessions).wf(),
            final(cache).wf(),
            storage_post(
                *old(self),
                *final(self),
                *old(sessions),
                *final(sessions),
                *old(cache),
                *final(cache),
                now,
                secret@,
                res,
                acts@,
            ),
    {
        let mut p = Pending::Idle;
        core::mem::swap(&mut p, &mut self.pending);
        let message_flow = matches!(
            p,
            Pending::RegisterWait | Pending::LoginWait { .. } | Pending::SendCheck { .. }
                | Pending::SendInsert { .. } | Pending::SendName { .. }
                | Pending::SendMembers { .. } | Pending::HistoryCheck { .. }
                | Pending::HistoryFetch { .. } | Pending::FwdFetch { .. } | Pending::FwdInsert
        );
        if message_flow {
            self.on_storage_flows(sessions, cache, now, secret, p, res)
        } else {
            self.on_storage_admin(sessions, cache, now, secret, p, res)
        }
    }

    /// The account, message and history answers: registration, login, the
    /// send pipeline, history reads and forwarding.
    #[verifier::rlimit(100)]
    #[verifier::spinoff_prover]
    fn on_storage_flows(
        &mut self,
        sessions: &mut SessionStore,
        cache: &mut MessageCache,
        now: u64,
        secret: &str,
        p: Pending,
        res: StorageResult,
    ) -> (acts: Vec<Action>)
        requires
            old(self).pending is Idle,
            old(sessions).wf(),
            old(cache).wf(),
            p is RegisterWait || p is LoginWait || p is SendCheck || p is SendInsert
                || p is SendName || p is SendMembers || p is HistoryCheck || p is HistoryFetch
                || p is FwdFetch || p is FwdInsert,
        ensures
            final(sessions).wf(),
            final(cache).wf(),
            storage_post(
                ConnState { conn: old(self).conn, identity: old(self).identity, pending: p },
                *final(self),
                *old(sessions),
                *final(sessions),
                *old(cache),
                *final(cache),
                now,
                secret@,
                res,
                acts@,
            ),
    {
        match (p, res) {
            (Pending::RegisterWait, StorageResult::UserCreated(r)) => match r {
                Ok(user) => self.adopt_identity(sessions, now, secret, user.id),
                Err(e) => one_action(error_with(ErrorKind::RegisterFailed, e)),
            },
            (Pending::LoginWait { password }, StorageResult::UserFound(r)) => match r {
                Err(e) => one_action(error_with(ErrorKind::DbError, e)),
                Ok(found) => match authenticate_user(found, password.as_str()) {
                    Ok(user) => self.adopt_identity(sessions, now, secret, user.id),
                    Err(why) => one_action(Action::Reply(Reply::LoginRejected { why })),
                },
            },
            (Pending::SendCheck { msg, me }, StorageResult::IsMember(r)) => match r {
                Ok(true) => {
                    self.pending = Pending::SendInsert { me };
                    one_action(Action::Query(StorageQuery::InsertMessage { msg, sender_id: me }))
                },
                Ok(false) => one_action(error_reply(ErrorKind::NotInChat)),
                Err(e) => one_action(error_with(ErrorKind::CheckFailed, e)),
            },
            (Pending::SendInsert { me }, StorageResult::MessageInserted(r)) => match r {
                Ok(stored) => {
                    cache.invalidate(stored.chat_id);
                    self.pending = Pending::SendName {
                        chat_id: stored.chat_id,
                        body: stored.body,
                    };
                    two_actions(
                        Action::Reply(
                            Reply::MessageSaved {
                                message_id: stored.id,
                                timestamp: stored.created_at,
                            },
                        ),
                        Action::Query(StorageQuery::GetUsername { user_id: me }),
                    )
                },
                Err(e) => one_action(error_with(ErrorKind::DbError, e)),
            },
            (Pending::SendName { chat_id, body }, StorageResult::Username(r)) => {
                let from = match r {
                    Ok(name) => name,
                    Err(_) => "unknown".to_owned(),
                };
                self.pending = Pending::SendMembers { chat_id, body, from };
                one_action(Action::Query(StorageQuery::ChatMembers { chat_id }))
            },
            (Pending::SendMembers { chat_id, body, from }, StorageResult::ChatMembers(r)) => {
                let members = match r {
                    Ok(v) => v,
                    Err(_) => Vec::new(),
                };
                plan_fanout(sessions, &members, chat_id, &from, &body)
            },
            (Pending::HistoryCheck { chat_id }, StorageResult::IsMember(r)) => match r {
                Ok(true) => match cache.lookup(chat_id, now) {
                    Some(messages) => one_action(
                        Action::Reply(Reply::MessageHistory { chat_id, messages }),
                    ),
                    None => {
                        self.pending = Pending::HistoryFetch { chat_id };
                        one_action(Action::Query(StorageQuery::FetchHistory { chat_id }))
                    },
                },
                Ok(false) => one_action(error_reply(ErrorKind::NotInChat)),
                Err(_) => one_action(error_reply(ErrorKind::NotInChat)),
            },
            (Pending::HistoryFetch { chat_id }, StorageResult::History(r)) => match r {
                Ok(messages) => {
                    let copy = copy_history(&messages);
                    cache.store(chat_id, copy, now);
                    one_action(Action::Reply(Reply::MessageHistory { chat_id, messages }))
                },
                Err(e) => one_action(error_with(ErrorKind::DbError, e)),
            },
            (Pending::FwdFetch { chat_id, original_id, me }, StorageResult::Original(r)) => match r {
                Ok(Some(body)) => {
                    let msg = NewMessage {
                        chat_id,
                        body,
                        reply_to_id: None,
                        forwarded_from: Some(original_id),
                    };
                    self.pending = Pending::FwdInsert;
                    one_action(Action::Query(StorageQuery::InsertMessage { msg, sender_id: me }))
                },
                Ok(None) => one_action(error_reply(ErrorKind::ForwardFailed)),
                Err(e) => one_action(error_with(ErrorKind::ForwardFailed, e)),
            },
            (Pending::FwdInsert, StorageResult::MessageInserted(r)) => match r {
                Ok(stored) => {
                    cache.invalidate(stored.chat_id);
                    one_action(
                        Action::Reply(
                            Reply::MessageForwarded {
                                message_id: stored.id,
                                timestamp: stored.created_at,
                                forwarded_from: stored.forwarded_from,
                            },
                        ),
                    )
                },
                Err(e) => one_action(error_with(ErrorKind::ForwardFailed, e)),
            },
            _ => Vec::new(),
        }
    }

    /// The conversation administration answers: creation, member add and
    /// remove with their checks, edit and delete, reactions, and listings.
    #[verifier::rlimit(100)]
    #[verifier::spinoff_prover]
    fn on_storage_admin(
        &mut self,
        sessions: &mut SessionStore,
        cache: &mut MessageCache,
        now: u64,
        secret: &str,
        p: Pending,
        res: StorageResult,
    ) -> (acts: Vec<Action>)
        requires
            old(self).pending is Idle,
            old(sessions).wf(),
            old(cache).wf(),
            !(p is RegisterWait || p is LoginWait || p is SendCheck || p is SendInsert
                || p is SendName || p is SendMembers || p is HistoryCheck || p is HistoryFetch
                || p is FwdFetch || p is FwdInsert),
        ensures
            final(sessions).wf(),
            final(cache).wf(),
            storage_post(
                ConnState { conn: old(self).conn, identity: old(self).identity, pending: p },
                *final(self),
                *old(sessions),
                *final(sessions),
                *old(cache),
                *final(cache),
                now,
                secret@,
                res,
                acts@,
            ),
    {
        match (p, res) {
            (Pending::EditWait, StorageResult::EditApplied(r)) => match r {
                Ok(Some(chat)) => {
                    cache.invalidate(chat);
                    one_action(Action::Reply(Reply::MessageEdited))
                },
                Ok(None) => one_action(error_reply(ErrorKind::EditFailed)),
                Err(e) => one_action(error_with(ErrorKind::EditFailed, e)),
            },
            (Pending::DeleteWait, StorageResult::DeleteApplied(r)) => match r {
                Ok(Some(chat)) => {
                    cache.invalidate(chat);
                    one_action(Action::Reply(Reply::MessageDeleted))
                },
                Ok(None) => one_action(error_reply(ErrorKind::DeleteFailed)),
                Err(e) => one_action(error_with(ErrorKind::DeleteFailed, e)),
            },
            (Pending::ReactWait, StorageResult::ReactionSaved(r)) => match r {
                Ok(_) => one_action(Action::Reply(Reply::ReactionSet)),
                Err(e) => one_action(error_with(ErrorKind::ReactionFailed, e)),
            },
            (Pending::CreateWait, StorageResult::ChatCreated(r)) => match r {
                Ok(chat_id) => one_action(Action::Reply(Reply::ChatCreated { chat_id })),
                Err(e) => one_action(error_with(ErrorKind::CreateChatFailed, e)),
            },
            (Pending::AddCheckMember { chat_id, target }, StorageResult::IsMember(r)) => match r {
                Ok(true) => {
                    self.pending = Pending::AddCheckExists { chat_id, target };
                    one_action(Action::Query(StorageQuery::UserExists { user_id: target }))
                },
                Ok(false) => one_action(error_reply(ErrorKind::NotInChat)),
                Err(e) => one_action(error_with(ErrorKind::CheckFailed, e)),
            },
            (Pending::AddCheckExists { chat_id, target }, StorageResult::UserIsKnown(r)) => match r {
                Ok(true) => {
                    self.pending = Pending::AddInsert;
                    one_action(Action::Query(StorageQuery::AddMember { chat_id, user_id: target }))
                },
                Ok(false) => one_action(error_reply(ErrorKind::UserNotFound)),
                Err(e) => one_action(error_with(ErrorKind::UserCheckFailed, e)),
            },
            (Pending::AddInsert, StorageResult::MemberAdded(r)) => match r {
                Ok(_) => one_action(Action::Reply(Reply::UserAdded)),
                Err(e) => one_action(error_with(ErrorKind::AddFailed, e)),
            },
            (Pending::RemCheckExists { chat_id, target }, StorageResult::UserIsKnown(r)) => match r {
                Ok(true) => {
                    self.pending = Pending::RemCheckMember { chat_id, target };
                    one_action(Action::Query(StorageQuery::IsMember { chat_id, user_id: target }))
                },
                Ok(false) => one_action(error_reply(ErrorKind::UserNotFound)),
                Err(e) => one_action(error_with(ErrorKind::UserCheckFailed, e)),
            },
            (Pending::RemCheckMember { chat_id, target }, StorageResult::IsMember(r)) => match r {
                Ok(true) => {
                    self.pending = Pending::RemDelete;
                    one_action(
                        Action::Query(StorageQuery::RemoveMember { chat_id, user_id: target }),
                    )
                },
                Ok(false) => one_action(error_reply(ErrorKind::UserNotInChat)),
                Err(e) => one_action(error_with(ErrorKind::ChatCheckFailed, e)),
            },
            (Pending::RemDelete, StorageResult::MemberRemoved(r)) => match r {
                Ok(_) => one_action(Action::Reply(Reply::UserRemoved)),
                Err(e) => one_action(error_with(ErrorKind::RemoveFailed, e)),
            },
            (Pending::MembersWait, StorageResult::ChatMembers(r)) => match r {
                Ok(members) => one_action(Action::Reply(Reply::MembersList { members })),
                Err(e) => one_action(error_with(ErrorKind::GetMembersFailed, e)),
            },
            (Pending::ChatsWait, StorageResult::UserChats(r)) => match r {
                Ok(chats) => one_action(Action::Reply(Reply::ChatList { chats })),
                Err(e) => one_action(error_with(ErrorKind::DbError, e)),
            },
            _ => Vec::new(),
        }
    }

    /// The guaranteed finalization step when the connection goes away, for
    /// any reason and whatever was in flight: the connection is removed from
    /// the session store, and with it the identity's entry when this was its
    /// last live connection.
    pub fn on_closed(&mut self, sessions: &mut SessionStore)
        requires
            old(sessions).wf(),
        ensures
            final(sessions).wf(),
            final(self).conn == old(self).conn,
            final(self).identity == old(self).identity,
            final(self).pending is Idle,
            match old(self).identity {
                Some(id) => unregistered(*old(sessions), *final(sessions), id, old(self).conn),
                None => same_sessions(*old(sessions), *final(sessions)),
            },
    {
        self.pending = Pending::Idle;
        match self.identity {
            Some(id) => sessions.unregister(id, self.conn),
            None => {},
        }
    }
}

} // verus!
