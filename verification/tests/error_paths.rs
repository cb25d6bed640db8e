//! The remaining flows and error paths: member removal, chat listing,
//! storage failures with their distinct codes, and storage answers that do
//! not match what the machine was waiting for.

use quantum_server::cache::MessageCache;
use quantum_server::dispatch::ConnState;
use quantum_server::dispatch::Pending;
use quantum_server::ids::format_uuid;
use quantum_server::model::UserChat;
use quantum_server::protocol::Action;
use quantum_server::protocol::Command;
use quantum_server::protocol::ErrorKind;
use quantum_server::protocol::Reply;
use quantum_server::protocol::StorageQuery;
use quantum_server::protocol::StorageResult;
use quantum_server::session::SessionStore;

const SECRET: &str = "error-path-secret";
const NOW: u64 = 1_700_000_000;

fn authed(conn: u64, id: u128) -> ConnState {
    let mut c = ConnState::new(conn);
    c.identity = Some(id);
    c
}

fn assert_failure_with(acts: &[Action], kind: ErrorKind, detail: &str) {
    assert_eq!(acts.len(), 1);
    match &acts[0] {
        Action::Reply(Reply::Failure { kind: k, detail: d }) => {
            assert_eq!(*k, kind);
            assert_eq!(d, detail);
        }
        other => panic!("expected a {:?} failure reply, got {:?}", kind, other),
    }
}

#[test]
fn register_without_payload_is_invalid() {
    let mut conn = ConnState::new(1);
    let mut sessions = SessionStore::new();
    let mut cache = MessageCache::new(180);
    let acts =
        conn.on_command(&mut sessions, &mut cache, NOW, SECRET, Command::Register { payload: None });
    assert_failure_with(&acts, ErrorKind::InvalidPayload, "");
}

#[test]
fn register_storage_error_carries_detail() {
    let mut conn = ConnState::new(1);
    let mut sessions = SessionStore::new();
    let mut cache = MessageCache::new(180);
    conn.on_command(
        &mut sessions,
        &mut cache,
        NOW,
        SECRET,
        Command::Register {
            payload: Some(quantum_server::model::NewUser {
                username: "bob".to_string(),
                password: "pw".to_string(),
                public_key: "pk".to_string(),
            }),
        },
    );
    let acts = conn.on_storage(
        &mut sessions,
        &mut cache,
        NOW,
        SECRET,
        StorageResult::UserCreated(Err("duplicate key".to_string())),
    );
    assert_failure_with(&acts, ErrorKind::RegisterFailed, "duplicate key");
    assert_eq!(conn.identity, None);
}

#[test]
fn membership_check_error_is_distinct() {
    let mut conn = authed(1, 10);
    let mut sessions = SessionStore::new();
    let mut cache = MessageCache::new(180);
    conn.on_command(
        &mut sessions,
        &mut cache,
        NOW,
        SECRET,
        Command::AddToChat { chat_id: Some(format_uuid(5)), user_id: Some(format_uuid(11)) },
    );
    let acts = conn.on_storage(
        &mut sessions,
        &mut cache,
        NOW,
        SECRET,
        StorageResult::IsMember(Err("connection reset".to_string())),
    );
    assert_failure_with(&acts, ErrorKind::CheckFailed, "connection reset");
}

#[test]
fn add_to_chat_rejects_unknown_target() {
    let mut conn = authed(1, 10);
    let mut sessions = SessionStore::new();
    let mut cache = MessageCache::new(180);
    conn.on_command(
        &mut sessions,
        &mut cache,
        NOW,
        SECRET,
        Command::AddToChat { chat_id: Some(format_uuid(5)), user_id: Some(format_uuid(11)) },
    );
    conn.on_storage(&mut sessions, &mut cache, NOW, SECRET, StorageResult::IsMember(Ok(true)));
    let acts = conn.on_storage(
        &mut sessions,
        &mut cache,
        NOW,
        SECRET,
        StorageResult::UserIsKnown(Ok(false)),
    );
    assert_failure_with(&acts, ErrorKind::UserNotFound, "");
}

#[test]
fn add_to_chat_requires_requester_membership() {
    let mut conn = authed(1, 10);
    let mut sessions = SessionStore::new();
    let mut cache = MessageCache::new(180);
    conn.on_command(
        &mut sessions,
        &mut cache,
        NOW,
        SECRET,
        Command::AddToChat { chat_id: Some(format_uuid(5)), user_id: Some(format_uuid(11)) },
    );
    let acts =
        conn.on_storage(&mut sessions, &mut cache, NOW, SECRET, StorageResult::IsMember(Ok(false)));
    assert_failure_with(&acts, ErrorKind::NotInChat, "");
}

#[test]
fn add_member_insert_failure_is_reported() {
    let mut conn = authed(1, 10);
    let mut sessions = SessionStore::new();
    let mut cache = MessageCache::new(180);
    conn.on_command(
        &mut sessions,
        &mut cache,
        NOW,
        SECRET,
        Command::AddToChat { chat_id: Some(format_uuid(5)), user_id: Some(format_uuid(11)) },
    );
    conn.on_storage(&mut sessions, &mut cache, NOW, SECRET, StorageResult::IsMember(Ok(true)));
    conn.on_storage(&mut sessions, &mut cache, NOW, SECRET, StorageResult::UserIsKnown(Ok(true)));
    let acts = conn.on_storage(
        &mut sessions,
        &mut cache,
        NOW,
        SECRET,
        StorageResult::MemberAdded(Err("insert failed".to_string())),
    );
    assert_failure_with(&acts, ErrorKind::AddFailed, "insert failed");
}

#[test]
fn remove_from_chat_full_flow() {
    let mut conn = authed(1, 10);
    let mut sessions = SessionStore::new();
    let mut cache = MessageCache::new(180);
    let acts = conn.on_command(
        &mut sessions,
        &mut cache,
        NOW,
        SECRET,
        Command::RemoveFromChat { chat_id: Some(format_uuid(5)), user_id: Some(format_uuid(11)) },
    );
    // existence of the target is checked first, then its membership
    assert!(matches!(acts[0], Action::Query(StorageQuery::UserExists { user_id: 11 })));
    let acts =
        conn.on_storage(&mut sessions, &mut cache, NOW, SECRET, StorageResult::UserIsKnown(Ok(true)));
    assert!(matches!(
        acts[0],
        Action::Query(StorageQuery::IsMember { chat_id: 5, user_id: 11 })
    ));
    let acts =
        conn.on_storage(&mut sessions, &mut cache, NOW, SECRET, StorageResult::IsMember(Ok(true)));
    assert!(matches!(
        acts[0],
        Action::Query(StorageQuery::RemoveMember { chat_id: 5, user_id: 11 })
    ));
    let acts =
        conn.on_storage(&mut sessions, &mut cache, NOW, SECRET, StorageResult::MemberRemoved(Ok(())));
    assert!(matches!(acts[0], Action::Reply(Reply::UserRemoved)));
}

#[test]
fn remove_from_chat_rejects_non_member_target() {
    let mut conn = authed(1, 10);
    let mut sessions = SessionStore::new();
    let mut cache = MessageCache::new(180);
    conn.on_command(
        &mut sessions,
        &mut cache,
        NOW,
        SECRET,
        Command::RemoveFromChat { chat_id: Some(format_uuid(5)), user_id: Some(format_uuid(11)) },
    );
    conn.on_storage(&mut sessions, &mut cache, NOW, SECRET, StorageResult::UserIsKnown(Ok(true)));
    let acts =
        conn.on_storage(&mut sessions, &mut cache, NOW, SECRET, StorageResult::IsMember(Ok(false)));
    assert_failure_with(&acts, ErrorKind::UserNotInChat, "");
}

#[test]
fn remove_target_existence_error_is_distinct() {
    let mut conn = authed(1, 10);
    let mut sessions = SessionStore::new();
    let mut cache = MessageCache::new(180);
    conn.on_command(
        &mut sessions,
        &mut cache,
        NOW,
        SECRET,
        Command::RemoveFromChat { chat_id: Some(format_uuid(5)), user_id: Some(format_uuid(11)) },
    );
    let acts = conn.on_storage(
        &mut sessions,
        &mut cache,
        NOW,
        SECRET,
        StorageResult::UserIsKnown(Err("timeout".to_string())),
    );
    assert_failure_with(&acts, ErrorKind::UserCheckFailed, "timeout");
}

#[test]
fn remove_membership_check_error_is_distinct() {
    let mut conn = authed(1, 10);
    let mut sessions = SessionStore::new();
    let mut cache = MessageCache::new(180);
    conn.on_command(
        &mut sessions,
        &mut cache,
        NOW,
        SECRET,
        Command::RemoveFromChat { chat_id: Some(format_uuid(5)), user_id: Some(format_uuid(11)) },
    );
    conn.on_storage(&mut sessions, &mut cache, NOW, SECRET, StorageResult::UserIsKnown(Ok(true)));
    let acts = conn.on_storage(
        &mut sessions,
        &mut cache,
        NOW,
        SECRET,
        StorageResult::IsMember(Err("timeout".to_string())),
    );
    assert_failure_with(&acts, ErrorKind::ChatCheckFailed, "timeout");
}

#[test]
fn get_my_chats_lists_conversations() {
    let mut conn = authed(1, 10);
    let mut sessions = SessionStore::new();
    let mut cache = MessageCache::new(180);
    let acts = conn.on_command(&mut sessions, &mut cache, NOW, SECRET, Command::GetMyChats);
    assert!(matches!(acts[0], Action::Query(StorageQuery::ListUserChats { user_id: 10 })));
    let chats = vec![UserChat { id: 5, name: Some("pair".to_string()), chat_type: "group".to_string() }];
    let acts = conn.on_storage(
        &mut sessions,
        &mut cache,
        NOW,
        SECRET,
        StorageResult::UserChats(Ok(chats.clone())),
    );
    match &acts[0] {
        Action::Reply(Reply::ChatList { chats: got }) => {
            assert_eq!(got.len(), 1);
            assert_eq!(got[0], chats[0]);
        }
        other => panic!("expected the chat list, got {:?}", other),
    }
}

#[test]
fn insert_failure_reports_db_error() {
    let mut conn = authed(1, 10);
    let mut sessions = SessionStore::new();
    let mut cache = MessageCache::new(180);
    conn.on_command(
        &mut sessions,
        &mut cache,
        NOW,
        SECRET,
        Command::SendMessage {
            payload: Some(quantum_server::protocol::NewMessagePayload {
                chat_id: format_uuid(5),
                body: "hi".to_string(),
                reply_to_id: None,
                forwarded_from: None,
            }),
        },
    );
    conn.on_storage(&mut sessions, &mut cache, NOW, SECRET, StorageResult::IsMember(Ok(true)));
    let acts = conn.on_storage(
        &mut sessions,
        &mut cache,
        NOW,
        SECRET,
        StorageResult::MessageInserted(Err("disk full".to_string())),
    );
    assert_failure_with(&acts, ErrorKind::DbError, "disk full");
}

#[test]
fn reaction_failure_is_reported() {
    let mut conn = authed(1, 10);
    let mut sessions = SessionStore::new();
    let mut cache = MessageCache::new(180);
    conn.on_command(
        &mut sessions,
        &mut cache,
        NOW,
        SECRET,
        Command::React { message_id: Some(format_uuid(7)), emoji: Some("<3".to_string()) },
    );
    let acts = conn.on_storage(
        &mut sessions,
        &mut cache,
        NOW,
        SECRET,
        StorageResult::ReactionSaved(Err("conflict".to_string())),
    );
    assert_failure_with(&acts, ErrorKind::ReactionFailed, "conflict");
}

#[test]
fn forward_of_missing_original_fails() {
    let mut conn = authed(1, 10);
    let mut sessions = SessionStore::new();
    let mut cache = MessageCache::new(180);
    conn.on_command(
        &mut sessions,
        &mut cache,
        NOW,
        SECRET,
        Command::ForwardMessage {
            chat_id: Some(format_uuid(5)),
            original_message_id: Some(format_uuid(404)),
        },
    );
    let acts =
        conn.on_storage(&mut sessions, &mut cache, NOW, SECRET, StorageResult::Original(Ok(None)));
    assert_failure_with(&acts, ErrorKind::ForwardFailed, "");
}

#[test]
fn create_chat_failure_is_reported() {
    let mut conn = authed(1, 10);
    let mut sessions = SessionStore::new();
    let mut cache = MessageCache::new(180);
    conn.on_command(
        &mut sessions,
        &mut cache,
        NOW,
        SECRET,
        Command::CreateChat { name: Some("x".to_string()), members: Vec::new() },
    );
    let acts = conn.on_storage(
        &mut sessions,
        &mut cache,
        NOW,
        SECRET,
        StorageResult::ChatCreated(Err("no space".to_string())),
    );
    assert_failure_with(&acts, ErrorKind::CreateChatFailed, "no space");
}

#[test]
fn members_listing_failure_is_reported() {
    let mut conn = ConnState::new(1);
    let mut sessions = SessionStore::new();
    let mut cache = MessageCache::new(180);
    conn.on_command(
        &mut sessions,
        &mut cache,
        NOW,
        SECRET,
        Command::GetChatMembers { chat_id: Some(format_uuid(5)) },
    );
    let acts = conn.on_storage(
        &mut sessions,
        &mut cache,
        NOW,
        SECRET,
        StorageResult::ChatMembers(Err("timeout".to_string())),
    );
    assert_failure_with(&acts, ErrorKind::GetMembersFailed, "timeout");
}

#[test]
fn history_fetch_failure_is_reported() {
    let mut conn = authed(1, 10);
    let mut sessions = SessionStore::new();
    let mut cache = MessageCache::new(180);
    conn.on_command(
        &mut sessions,
        &mut cache,
        NOW,
        SECRET,
        Command::GetMessages { chat_id: Some(format_uuid(5)), limit: None },
    );
    conn.on_storage(&mut sessions, &mut cache, NOW, SECRET, StorageResult::IsMember(Ok(true)));
    let acts = conn.on_storage(
        &mut sessions,
        &mut cache,
        NOW,
        SECRET,
        StorageResult::History(Err("timeout".to_string())),
    );
    assert_failure_with(&acts, ErrorKind::DbError, "timeout");
}

#[test]
fn missing_chat_id_is_rejected() {
    let mut conn = authed(1, 10);
    let mut sessions = SessionStore::new();
    let mut cache = MessageCache::new(180);
    let acts = conn.on_command(
        &mut sessions,
        &mut cache,
        NOW,
        SECRET,
        Command::GetMessages { chat_id: None, limit: None },
    );
    assert_failure_with(&acts, ErrorKind::InvalidPayload, "");
}

#[test]
fn login_storage_error_is_operation_failed() {
    let mut conn = ConnState::new(1);
    let mut sessions = SessionStore::new();
    let mut cache = MessageCache::new(180);
    conn.on_command(
        &mut sessions,
        &mut cache,
        NOW,
        SECRET,
        Command::Login { username: Some("alice".to_string()), password: Some("pw".to_string()) },
    );
    // a storage outage during the lookup is not "user not found"
    let acts = conn.on_storage(
        &mut sessions,
        &mut cache,
        NOW,
        SECRET,
        StorageResult::UserFound(Err("connection refused".to_string())),
    );
    assert_failure_with(&acts, ErrorKind::DbError, "connection refused");
    assert_eq!(conn.identity, None);
}

#[test]
fn mismatched_storage_answer_is_dropped() {
    let mut conn = authed(1, 10);
    let mut sessions = SessionStore::new();
    let mut cache = MessageCache::new(180);
    conn.on_command(
        &mut sessions,
        &mut cache,
        NOW,
        SECRET,
        Command::GetMyChats,
    );
    // the machine awaits a chat list; a membership answer is not for it
    let acts =
        conn.on_storage(&mut sessions, &mut cache, NOW, SECRET, StorageResult::IsMember(Ok(true)));
    assert!(acts.is_empty());
    assert!(matches!(conn.pending, Pending::Idle));
}

#[test]
fn idle_machine_drops_storage_answers() {
    let mut conn = authed(1, 10);
    let mut sessions = SessionStore::new();
    let mut cache = MessageCache::new(180);
    let acts =
        conn.on_storage(&mut sessions, &mut cache, NOW, SECRET, StorageResult::IsMember(Ok(true)));
    assert!(acts.is_empty());
}
