//! Read-through cache for conversation message history.
//!
//! Each entry holds the visible history of one conversation together with an
//! absolute expiry instant. Reads serve a stored snapshot only while it is
//! fresh; a stored snapshot with no messages is never treated as
//! authoritative (it could stem from a read racing a write), so it is
//! bypassed like a miss. Every write that changes a conversation's visible
//! messages must call [`MessageCache::invalidate`] before its effects are
//! shown to any client; staleness is then bounded by invalidation, not only
//! by the time to live.

use vstd::prelude::*;

use crate::model::ChatMessage;
use crate::model::ChatMessageV;
use crate::model::copy_history;
use crate::model::history_view;

verus! {

struct CacheEntry {
    chat_id: u128,
    messages: Vec<ChatMessage>,
    expires_at: u64,
}

/// Cache of visible-history snapshots, keyed by conversation.
pub struct MessageCache {
    entries: Vec<CacheEntry>,
    ttl: u64,
}

/// Some entry of `s` is keyed by conversation `chat`.
spec fn seq_has(s: Seq<CacheEntry>, chat: u128) -> bool {
    exists|k: int| 0 <= k < s.len() && (#[trigger] s[k]).chat_id == chat
}

/// The entry of `s` keyed by `chat` (meaningful when keys are unique).
spec fn entry_at(s: Seq<CacheEntry>, chat: u128) -> CacheEntry {
    s[choose|k: int| 0 <= k < s.len() && (#[trigger] s[k]).chat_id == chat]
}

/// No two entries of `s` share a conversation key.
spec fn keys_unique(s: Seq<CacheEntry>) -> bool {
    forall|i: int, j: int|
        0 <= i < j < s.len() ==> (#[trigger] s[i]).chat_id != (#[trigger] s[j]).chat_id
}

/// When a snapshot stored at `now` with time to live `ttl` expires.
pub open spec fn expiry_of(now: u64, ttl: u64) -> u64 {
    if now + ttl <= u64::MAX {
        (now + ttl) as u64
    } else {
        u64::MAX
    }
}

/// What a read at instant `now` is served from the cache alone: the stored
/// snapshot when one is present, fresh, and non-empty; nothing otherwise.
pub open spec fn served_from_cache(c: MessageCache, chat: u128, now: u64) -> Option<
    Seq<ChatMessageV>,
> {
    if c.has(chat) && now < c.expiry(chat) && c.snapshot(chat).len() > 0 {
        Some(c.snapshot(chat))
    } else {
        None
    }
}

/// `a` and `b` hold exactly the same snapshots, with the same expiries.
pub open spec fn same_cache(a: MessageCache, b: MessageCache) -> bool {
    &&& b.time_to_live() == a.time_to_live()
    &&& forall|chat: u128| #[trigger] b.has(chat) <==> a.has(chat)
    &&& forall|chat: u128|
        a.has(chat) ==> #[trigger] b.snapshot(chat) == a.snapshot(chat) && b.expiry(chat)
            == a.expiry(chat)
}

/// `b` is `a` with any snapshot for `chat` dropped (and nothing else
/// changed).
pub open spec fn invalidated(a: MessageCache, b: MessageCache, chat: u128) -> bool {
    &&& b.time_to_live() == a.time_to_live()
    &&& !b.has(chat)
    &&& forall|chat2: u128| chat2 != chat ==> (#[trigger] b.has(chat2) <==> a.has(chat2))
    &&& forall|chat2: u128|
        chat2 != chat && a.has(chat2) ==> #[trigger] b.snapshot(chat2) == a.snapshot(chat2)
            && b.expiry(chat2) == a.expiry(chat2)
}

/// `b` is `a` with `history` stored for `chat` at instant `now` (and nothing
/// else changed).
pub open spec fn stored_into(
    a: MessageCache,
    b: MessageCache,
    chat: u128,
    history: Seq<ChatMessageV>,
    now: u64,
) -> bool {
    &&& b.time_to_live() == a.time_to_live()
    &&& b.has(chat)
    &&& b.snapshot(chat) == history
    &&& b.expiry(chat) == expiry_of(now, a.time_to_live())
    &&& forall|chat2: u128| chat2 != chat ==> (#[trigger] b.has(chat2) <==> a.has(chat2))
    &&& forall|chat2: u128|
        chat2 != chat && a.has(chat2) ==> #[trigger] b.snapshot(chat2) == a.snapshot(chat2)
            && b.expiry(chat2) == a.expiry(chat2)
}

proof fn lemma_entry_at(s: Seq<CacheEntry>, i: int, chat: u128)
    requires
        keys_unique(s),
        0 <= i < s.len(),
        s[i].chat_id == chat,
    ensures
        seq_has(s, chat),
        entry_at(s, chat) == s[i],
{
    assert(seq_has(s, chat));
    let k = choose|k: int| 0 <= k < s.len() && (#[trigger] s[k]).chat_id == chat;
    if k < i {
        assert(s[k].chat_id != s[i].chat_id);
    } else if i < k {
        assert(s[i].chat_id != s[k].chat_id);
    }
}

proof fn lemma_remove_keyed(pre: Seq<CacheEntry>, post: Seq<CacheEntry>, i: int)
    requires
        keys_unique(pre),
        0 <= i < pre.len(),
        post == pre.remove(i),
    ensures
        keys_unique(post),
        !seq_has(post, pre[i].chat_id),
        forall|chat: u128|
            chat != pre[i].chat_id ==> (#[trigger] seq_has(post, chat) <==> seq_has(pre, chat)),
        forall|chat: u128|
            chat != pre[i].chat_id && seq_has(pre, chat) ==> #[trigger] entry_at(post, chat)
                == entry_at(pre, chat),
{
    pre.remove_ensures(i);
    assert forall|a: int, b: int| 0 <= a < b < post.len() implies (#[trigger] post[a]).chat_id
        != (#[trigger] post[b]).chat_id by {
        if b < i {
            assert(pre[a].chat_id != pre[b].chat_id);
        } else if a < i {
            assert(pre[a].chat_id != pre[b + 1].chat_id);
        } else {
            assert(pre[a + 1].chat_id != pre[b + 1].chat_id);
        }
    }
    if seq_has(post, pre[i].chat_id) {
        let k = choose|k: int|
            0 <= k < post.len() && (#[trigger] post[k]).chat_id == pre[i].chat_id;
        if k < i {
            assert(pre[k].chat_id == pre[i].chat_id);
        } else {
            assert(pre[k + 1].chat_id == pre[i].chat_id);
        }
    }
    assert forall|chat: u128| chat != pre[i].chat_id implies (#[trigger] seq_has(post, chat)
        <==> seq_has(pre, chat)) by {
        if seq_has(post, chat) {
            let k = choose|k: int| 0 <= k < post.len() && (#[trigger] post[k]).chat_id == chat;
            if k < i {
                assert(pre[k].chat_id == chat);
            } else {
                assert(pre[k + 1].chat_id == chat);
            }
        }
        if seq_has(pre, chat) {
            let k = choose|k: int| 0 <= k < pre.len() && (#[trigger] pre[k]).chat_id == chat;
            assert(k != i);
            if k < i {
                assert(post[k].chat_id == chat);
            } else {
                assert(post[k - 1].chat_id == chat);
            }
        }
    }
    assert forall|chat: u128|
        chat != pre[i].chat_id && seq_has(pre, chat) implies #[trigger] entry_at(post, chat)
        == entry_at(pre, chat) by {
        let k = choose|k: int| 0 <= k < pre.len() && (#[trigger] pre[k]).chat_id == chat;
        assert(k != i);
        lemma_entry_at(pre, k, chat);
        if k < i {
            assert(post[k] == pre[k]);
            lemma_entry_at(post, k, chat);
        } else {
            assert(post[k - 1] == pre[k]);
            lemma_entry_at(post, k - 1, chat);
        }
    }
}

proof fn lemma_push_keyed(pre: Seq<CacheEntry>, post: Seq<CacheEntry>, e: CacheEntry)
    requires
        keys_unique(pre),
        !seq_has(pre, e.chat_id),
        post == pre.push(e),
    ensures
        keys_unique(post),
        seq_has(post, e.chat_id),
        entry_at(post, e.chat_id) == e,
        forall|chat: u128|
            chat != e.chat_id ==> (#[trigger] seq_has(post, chat) <==> seq_has(pre, chat)),
        forall|chat: u128|
            chat != e.chat_id && seq_has(pre, chat) ==> #[trigger] entry_at(post, chat)
                == entry_at(pre, chat),
{
    assert forall|a: int, b: int| 0 <= a < b < post.len() implies (#[trigger] post[a]).chat_id
        != (#[trigger] post[b]).chat_id by {
        if b < pre.len() {
            assert(pre[a].chat_id != pre[b].chat_id);
        } else {
            assert(post[b] == e);
            assert(pre[a].chat_id == post[a].chat_id);
            if post[a].chat_id == e.chat_id {
                assert(seq_has(pre, e.chat_id));
            }
        }
    }
    assert(post[pre.len() as int].chat_id == e.chat_id);
    lemma_entry_at(post, pre.len() as int, e.chat_id);
    assert forall|chat: u128| chat != e.chat_id implies (#[trigger] seq_has(post, chat)
        <==> seq_has(pre, chat)) by {
        if seq_has(post, chat) {
            let k = choose|k: int| 0 <= k < post.len() && (#[trigger] post[k]).chat_id == chat;
            assert(k < pre.len());
            assert(pre[k].chat_id == chat);
        }
        if seq_has(pre, chat) {
            let k = choose|k: int| 0 <= k < pre.len() && (#[trigger] pre[k]).chat_id == chat;
            assert(post[k].chat_id == chat);
        }
    }
    assert forall|chat: u128|
        chat != e.chat_id && seq_has(pre, chat) implies #[trigger] entry_at(post, chat)
        == entry_at(pre, chat) by {
        let k = choose|k: int| 0 <= k < pre.len() && (#[trigger] pre[k]).chat_id == chat;
        lemma_entry_at(pre, k, chat);
        assert(post[k] == pre[k]);
        lemma_entry_at(post, k, chat);
    }
}

impl MessageCache {
    /// The cache never holds two snapshots for one conversation.
    pub closed spec fn wf(self) -> bool {
        keys_unique(self.entries@)
    }

    /// A snapshot (fresh or not) is stored for conversation `chat`.
    pub closed spec fn has(self, chat: u128) -> bool {
        seq_has(self.entries@, chat)
    }

    /// The stored snapshot for `chat` (meaningful while `has(chat)`).
    pub closed spec fn snapshot(self, chat: u128) -> Seq<ChatMessageV> {
        history_view(entry_at(self.entries@, chat).messages@)
    }

    /// The instant at which the stored snapshot for `chat` expires.
    pub closed spec fn expiry(self, chat: u128) -> u64 {
        entry_at(self.entries@, chat).expires_at
    }

    /// The configured time to live of stored snapshots.
    pub closed spec fn time_to_live(self) -> u64 {
        self.ttl
    }

    /// An empty cache whose snapshots live for `ttl` time units.
    pub fn new(ttl: u64) -> (r: MessageCache)
        ensures
            r.wf(),
            r.time_to_live() == ttl,
            forall|chat: u128| !r.has(chat),
    {
        MessageCache { entries: Vec::new(), ttl }
    }

    #[verifier::loop_isolation(false)]
    fn find(&self, chat: u128) -> (r: Option<usize>)
        requires
            self.wf(),
        ensures
            match r {
                Some(i) => i < self.entries@.len() && self.entries@[i as int].chat_id == chat
                    && self.has(chat) && entry_at(self.entries@, chat) == self.entries@[
                    i as int],
                None => !self.has(chat),
            },
    {
        let mut i: usize = 0;
        while i < self.entries.len()
            invariant
                i <= self.entries@.len(),
                forall|k: int| 0 <= k < i ==> (#[trigger] self.entries@[k]).chat_id != chat,
            decreases self.entries@.len() - i,
        {
            if self.entries[i].chat_id == chat {
                proof {
                    lemma_entry_at(self.entries@, i as int, chat);
                }
                return Some(i);
            }
            i = i + 1;
        }
        proof {
            if self.has(chat) {
                let k = choose|k: int|
                    0 <= k < self.entries@.len() && (#[trigger] self.entries@[k]).chat_id
                        == chat;
            }
        }
        None
    }

    /// Serves a read at instant `now` from the cache alone: the stored
    /// snapshot if present, fresh, and non-empty; `None` otherwise, and the
    /// caller must recompute from storage (a stored empty history counts as a
    /// miss on purpose).
    pub fn lookup(&self, chat: u128, now: u64) -> (r: Option<Vec<ChatMessage>>)
        requires
            self.wf(),
        ensures
            match r {
                Some(v) => served_from_cache(*self, chat, now) == Some(history_view(v@)),
                None => served_from_cache(*self, chat, now) is None,
            },
    {
        match self.find(chat) {
            Some(i) => {
                let e = &self.entries[i];
                if now < e.expires_at && e.messages.len() > 0 {
                    Some(copy_history(&e.messages))
                } else {
                    None
                }
            },
            None => None,
        }
    }

    /// Stores the freshly computed history for `chat`, replacing any previous
    /// snapshot; it expires `time_to_live` units after `now`.
    pub fn store(&mut self, chat: u128, messages: Vec<ChatMessage>, now: u64)
        requires
            old(self).wf(),
        ensures
            final(self).wf(),
            stored_into(*old(self), *final(self), chat, history_view(messages@), now),
    {
        let expires_at: u64 = if now <= u64::MAX - self.ttl {
            now + self.ttl
        } else {
            u64::MAX
        };
        let ghost pre = self.entries@;
        let mut removed = false;
        match self.find(chat) {
            Some(i) => {
                self.entries.remove(i);
                proof {
                    lemma_remove_keyed(pre, self.entries@, i as int);
                }
                removed = true;
            },
            None => {},
        }
        let ghost mid = self.entries@;
        let e = CacheEntry { chat_id: chat, messages, expires_at };
        self.entries.push(e);
        proof {
            lemma_push_keyed(mid, self.entries@, e);
        }
    }

    /// Drops any stored snapshot for `chat`: the next read recomputes from
    /// storage. A no-op when nothing is stored.
    pub fn invalidate(&mut self, chat: u128)
        requires
            old(self).wf(),
        ensures
            final(self).wf(),
            invalidated(*old(self), *final(self), chat),
    {
        let ghost pre = self.entries@;
        match self.find(chat) {
            Some(i) => {
                self.entries.remove(i);
                proof {
                    lemma_remove_keyed(pre, self.entries@, i as int);
                }
            },
            None => {},
        }
    }
}

/// Read-through round trip: immediately after an invalidation nothing is
/// served from the cache, so a read must recompute from storage; once that
/// non-empty recomputed history is stored, any read before its expiry is
/// served the identical snapshot from the cache, with no further recompute.
pub proof fn lemma_read_through_round_trip(
    inv: MessageCache,
    stored: MessageCache,
    chat: u128,
    history: Seq<ChatMessageV>,
    now: u64,
    later: u64,
)
    requires
        // inv: the cache right after `invalidate(chat)`
        !inv.has(chat),
        // stored: the cache right after `store(chat, history, now)` on inv
        stored.has(chat),
        stored.snapshot(chat) == history,
        stored.expiry(chat) == expiry_of(now, inv.time_to_live()),
        history.len() > 0,
        now <= later,
        later < expiry_of(now, inv.time_to_live()),
    ensures
        served_from_cache(inv, chat, now) is None,
        served_from_cache(stored, chat, later) == Some(history),
{
}

} // verus!
