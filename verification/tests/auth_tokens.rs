//! Credentials and tokens against the real bcrypt, jsonwebtoken and uuid
//! crates: hash/verify round trips, token issue/accept round trips, and the
//! full register and login flows of the dispatcher.

use quantum_server::auth::AuthFailure;
use quantum_server::auth::authenticate_user;
use quantum_server::auth::generate_jwt;
use quantum_server::auth::hash_password;
use quantum_server::auth::verify_jwt;
use quantum_server::auth::verify_password;
use quantum_server::cache::MessageCache;
use quantum_server::dispatch::ConnState;
use quantum_server::ids::format_uuid;
use quantum_server::ids::parse_uuid;
use quantum_server::model::NewUser;
use quantum_server::model::User;
use quantum_server::protocol::Action;
use quantum_server::protocol::Command;
use quantum_server::protocol::Reply;
use quantum_server::protocol::StorageQuery;
use quantum_server::protocol::StorageResult;
use quantum_server::session::SessionStore;

const SECRET: &str = "auth-test-secret";

fn now_timestamp() -> u64 {
    chrono::Utc::now().timestamp().max(0) as u64
}

fn user(id: u128, name: &str, hash: &str) -> User {
    User {
        id,
        username: name.to_string(),
        password_hash: hash.to_string(),
        public_key: "pk".to_string(),
        created_at: 0,
    }
}

#[test]
fn uuid_text_round_trip() {
    assert_eq!(format_uuid(1), "00000000-0000-0000-0000-000000000001");
    assert_eq!(parse_uuid("00000000-0000-0000-0000-000000000001"), Some(1));
    let id: u128 = 0x0123_4567_89ab_cdef_0123_4567_89ab_cdef;
    assert_eq!(parse_uuid(&format_uuid(id)), Some(id));
    assert_eq!(parse_uuid("not a uuid"), None);
    assert_eq!(parse_uuid(""), None);
}

#[test]
fn hashed_password_verifies_and_wrong_one_does_not() {
    let hash = hash_password("hunter2").expect("hashing failed");
    assert_ne!(hash, "hunter2");
    assert!(hash.starts_with("$2"));
    assert_eq!(verify_password("hunter2", &hash), Some(true));
    assert_eq!(verify_password("hunter3", &hash), Some(false));
    assert_eq!(verify_password("hunter2", "not a bcrypt hash"), None);
}

#[test]
fn authenticate_user_decides_by_found_record_and_password() {
    let hash = hash_password("pw").expect("hashing failed");
    let u = user(7, "alice", &hash);
    assert!(matches!(
        authenticate_user(None, "pw"),
        Err(AuthFailure::UserNotFound)
    ));
    assert!(matches!(
        authenticate_user(Some(user(7, "alice", "garbage")), "pw"),
        Err(AuthFailure::HashInvalid)
    ));
    assert!(matches!(
        authenticate_user(Some(user(7, "alice", &hash)), "other"),
        Err(AuthFailure::WrongPassword)
    ));
    let ok = authenticate_user(Some(u), "pw").expect("login should succeed");
    assert_eq!(ok.id, 7);
}

#[test]
fn issued_token_is_accepted_and_names_the_identity() {
    let now = now_timestamp();
    let sub = format_uuid(42);
    let token = generate_jwt(&sub, SECRET, now);
    assert_ne!(token, sub);
    let claims = verify_jwt(&token, SECRET).expect("fresh token must verify");
    assert_eq!(claims.sub, sub);
    assert_eq!(claims.exp, now + 7200);
    // a different secret does not accept it
    assert!(verify_jwt(&token, "other-secret").is_none());
}

#[test]
fn expired_token_is_rejected() {
    // issued in 1970: long past its two-hour lifetime (and the leeway)
    let token = generate_jwt(&format_uuid(42), SECRET, 1);
    assert!(verify_jwt(&token, SECRET).is_none());
}

#[test]
fn auth_command_registers_the_session() {
    let now = now_timestamp();
    let id: u128 = 42;
    let token = generate_jwt(&format_uuid(id), SECRET, now);
    let mut conn = ConnState::new(9);
    let mut sessions = SessionStore::new();
    let mut cache = MessageCache::new(180);
    let acts = conn.on_command(
        &mut sessions,
        &mut cache,
        now,
        SECRET,
        Command::Auth { token: Some(token) },
    );
    assert_eq!(acts.len(), 1);
    assert!(matches!(acts[0], Action::Reply(Reply::Authenticated)));
    assert_eq!(conn.identity, Some(id));
    assert_eq!(sessions.lookup(id), vec![9]);
}

#[test]
fn bad_token_is_told_and_closed() {
    let mut conn = ConnState::new(9);
    let mut sessions = SessionStore::new();
    let mut cache = MessageCache::new(180);
    let acts = conn.on_command(
        &mut sessions,
        &mut cache,
        now_timestamp(),
        SECRET,
        Command::Auth { token: Some("not.a.token".to_string()) },
    );
    assert_eq!(acts.len(), 2);
    assert!(matches!(
        acts[0],
        Action::Reply(Reply::Failure { kind: quantum_server::protocol::ErrorKind::InvalidToken, .. })
    ));
    assert!(matches!(acts[1], Action::Close));
    assert_eq!(conn.identity, None);
    assert_eq!(sessions.lookup(42), Vec::<u64>::new());
}

#[test]
fn register_flow_hashes_and_hands_back_a_working_token() {
    let now = now_timestamp();
    let mut conn = ConnState::new(3);
    let mut sessions = SessionStore::new();
    let mut cache = MessageCache::new(180);
    let acts = conn.on_command(
        &mut sessions,
        &mut cache,
        now,
        SECRET,
        Command::Register {
            payload: Some(NewUser {
                username: "alice".to_string(),
                password: "hunter2".to_string(),
                public_key: "pk".to_string(),
            }),
        },
    );
    assert_eq!(acts.len(), 1);
    let (username, password_hash, public_key) = match acts.into_iter().next().unwrap() {
        Action::Query(StorageQuery::CreateUser { username, password_hash, public_key }) => {
            (username, password_hash, public_key)
        }
        other => panic!("expected the create-user query, got {:?}", other),
    };
    assert_eq!(username, "alice");
    assert_eq!(public_key, "pk");
    // the stored hash is a bcrypt hash of the supplied password
    assert_eq!(verify_password("hunter2", &password_hash), Some(true));

    let id: u128 = 7;
    let acts = conn.on_storage(
        &mut sessions,
        &mut cache,
        now,
        SECRET,
        StorageResult::UserCreated(Ok(user(id, "alice", &password_hash))),
    );
    assert_eq!(conn.identity, Some(id));
    assert_eq!(sessions.lookup(id), vec![3]);
    let token = match acts.into_iter().next().unwrap() {
        Action::Reply(Reply::AuthOk { token }) => token,
        other => panic!("expected the token reply, got {:?}", other),
    };
    let claims = verify_jwt(&token, SECRET).expect("issued token must verify");
    assert_eq!(claims.sub, format_uuid(id));
}

#[test]
fn login_flow_checks_the_stored_hash() {
    let now = now_timestamp();
    let hash = hash_password("pw").expect("hashing failed");
    let mut conn = ConnState::new(4);
    let mut sessions = SessionStore::new();
    let mut cache = MessageCache::new(180);
    let acts = conn.on_command(
        &mut sessions,
        &mut cache,
        now,
        SECRET,
        Command::Login { username: Some("alice".to_string()), password: Some("pw".to_string()) },
    );
    assert!(matches!(acts[0], Action::Query(StorageQuery::FindUser { .. })));
    let acts = conn.on_storage(
        &mut sessions,
        &mut cache,
        now,
        SECRET,
        StorageResult::UserFound(Ok(Some(user(8, "alice", &hash)))),
    );
    assert!(matches!(acts[0], Action::Reply(Reply::AuthOk { .. })));
    assert_eq!(conn.identity, Some(8));
    assert_eq!(sessions.lookup(8), vec![4]);
}

#[test]
fn login_with_wrong_password_is_rejected() {
    let now = now_timestamp();
    let hash = hash_password("pw").expect("hashing failed");
    let mut conn = ConnState::new(4);
    let mut sessions = SessionStore::new();
    let mut cache = MessageCache::new(180);
    conn.on_command(
        &mut sessions,
        &mut cache,
        now,
        SECRET,
        Command::Login {
            username: Some("alice".to_string()),
            password: Some("wrong".to_string()),
        },
    );
    let acts = conn.on_storage(
        &mut sessions,
        &mut cache,
        now,
        SECRET,
        StorageResult::UserFound(Ok(Some(user(8, "alice", &hash)))),
    );
    assert!(matches!(
        acts[0],
        Action::Reply(Reply::LoginRejected { why: AuthFailure::WrongPassword })
    ));
    assert_eq!(conn.identity, None);
}

#[test]
fn login_for_unknown_user_is_rejected() {
    let mut conn = ConnState::new(4);
    let mut sessions = SessionStore::new();
    let mut cache = MessageCache::new(180);
    conn.on_command(
        &mut sessions,
        &mut cache,
        now_timestamp(),
        SECRET,
        Command::Login { username: Some("nobody".to_string()), password: Some("pw".to_string()) },
    );
    let acts = conn.on_storage(
        &mut sessions,
        &mut cache,
        now_timestamp(),
        SECRET,
        StorageResult::UserFound(Ok(None)),
    );
    assert!(matches!(
        acts[0],
        Action::Reply(Reply::LoginRejected { why: AuthFailure::UserNotFound })
    ));
}
