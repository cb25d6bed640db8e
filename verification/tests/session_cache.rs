//! The session store and the read-through cache, exercised on concrete
//! values: registration lifecycle, snapshot round trips, expiry, and the
//! empty-snapshot bypass.

use quantum_server::cache::MessageCache;
use quantum_server::model::ChatMessage;
use quantum_server::session::SessionStore;

fn msg(from: &str, body: &str, at: i64) -> ChatMessage {
    ChatMessage { from: from.to_string(), body: body.to_string(), created_at: at }
}

#[test]
fn lookup_of_unknown_identity_is_empty() {
    let sessions = SessionStore::new();
    assert_eq!(sessions.lookup(7), Vec::<u64>::new());
}

#[test]
fn register_then_lookup_contains_connection() {
    let mut sessions = SessionStore::new();
    sessions.register(7, 100);
    assert_eq!(sessions.lookup(7), vec![100]);
    assert_eq!(sessions.lookup(8), Vec::<u64>::new());
}

#[test]
fn register_twice_leaves_no_duplicate() {
    let mut sessions = SessionStore::new();
    sessions.register(7, 100);
    sessions.register(7, 100);
    assert_eq!(sessions.lookup(7), vec![100]);
}

#[test]
fn identity_may_own_several_connections() {
    let mut sessions = SessionStore::new();
    sessions.register(7, 100);
    sessions.register(7, 101);
    let mut conns = sessions.lookup(7);
    conns.sort();
    assert_eq!(conns, vec![100, 101]);
}

#[test]
fn unregister_sole_connection_removes_entry() {
    let mut sessions = SessionStore::new();
    sessions.register(7, 100);
    sessions.unregister(7, 100);
    assert_eq!(sessions.lookup(7), Vec::<u64>::new());
}

#[test]
fn unregister_keeps_other_connections() {
    let mut sessions = SessionStore::new();
    sessions.register(7, 100);
    sessions.register(7, 101);
    sessions.unregister(7, 100);
    assert_eq!(sessions.lookup(7), vec![101]);
}

#[test]
fn unregister_unknown_identity_is_noop() {
    let mut sessions = SessionStore::new();
    sessions.register(7, 100);
    sessions.unregister(8, 100);
    sessions.unregister(7, 999);
    assert_eq!(sessions.lookup(7), vec![100]);
}

#[test]
fn cache_miss_when_empty() {
    let cache = MessageCache::new(180);
    assert!(cache.lookup(1, 0).is_none());
}

#[test]
fn cache_serves_identical_snapshot_within_ttl() {
    let mut cache = MessageCache::new(180);
    let history = vec![msg("alice", "hi", 5), msg("bob", "there", 6)];
    cache.store(1, history.clone(), 1000);
    assert_eq!(cache.lookup(1, 1000), Some(history.clone()));
    assert_eq!(cache.lookup(1, 1179), Some(history));
}

#[test]
fn cache_snapshot_expires_after_ttl() {
    let mut cache = MessageCache::new(180);
    cache.store(1, vec![msg("alice", "hi", 5)], 1000);
    assert!(cache.lookup(1, 1180).is_none());
    assert!(cache.lookup(1, 5000).is_none());
}

#[test]
fn invalidate_forces_recompute_and_store_repopulates() {
    let mut cache = MessageCache::new(180);
    let history = vec![msg("alice", "hi", 5)];
    cache.store(1, history.clone(), 1000);
    cache.invalidate(1);
    // right after the invalidation nothing is served: the reader recomputes
    assert!(cache.lookup(1, 1000).is_none());
    // ... and once the recomputed history is stored, a second read within the
    // TTL gets the identical snapshot back
    cache.store(1, history.clone(), 1001);
    assert_eq!(cache.lookup(1, 1002), Some(history));
}

#[test]
fn empty_snapshot_is_not_authoritative() {
    let mut cache = MessageCache::new(180);
    cache.store(1, Vec::new(), 1000);
    // a stored empty history counts as a miss on purpose
    assert!(cache.lookup(1, 1000).is_none());
}

#[test]
fn invalidate_leaves_other_conversations_alone() {
    let mut cache = MessageCache::new(180);
    let history = vec![msg("alice", "hi", 5)];
    cache.store(1, history.clone(), 1000);
    cache.store(2, vec![msg("bob", "yo", 9)], 1000);
    cache.invalidate(2);
    assert_eq!(cache.lookup(1, 1001), Some(history));
    assert!(cache.lookup(2, 1001).is_none());
}
