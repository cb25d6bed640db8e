//! The session store: which identities currently own which live connections.
//!
//! Every connection task reads and writes this one table. It is the source of
//! truth for fan-out: an event reaches exactly the live connections that the
//! store lists for its recipients. The store holds the pairs
//! `(identity, connection)`; an identity is *known* while at least one of its
//! connections is live, and its entry disappears with its last connection.

use vstd::prelude::*;

verus! {

/// Registry of live `(identity, connection)` pairs.
pub struct SessionStore {
    live: Vec<(u128, u64)>,
}

/// Some pair of `s` belongs to identity `id`.
spec fn seq_knows(s: Seq<(u128, u64)>, id: u128) -> bool {
    exists|k: int| 0 <= k < s.len() && (#[trigger] s[k]).0 == id
}

/// `b` is `a` with connection `c` registered under identity `id` (and nothing
/// else changed).
pub open spec fn registered(a: SessionStore, b: SessionStore, id: u128, c: u64) -> bool {
    &&& forall|id2: u128, c2: u64|
        #[trigger] b.has_conn(id2, c2) <==> (a.has_conn(id2, c2) || (id2 == id && c2 == c))
    &&& forall|id2: u128| #[trigger] b.known(id2) <==> (a.known(id2) || id2 == id)
}

/// `b` is `a` with connection `c` removed from identity `id` (and nothing
/// else changed); the identity stays known exactly when it had another live
/// connection.
pub open spec fn unregistered(a: SessionStore, b: SessionStore, id: u128, c: u64) -> bool {
    &&& forall|id2: u128, c2: u64|
        #[trigger] b.has_conn(id2, c2) <==> (a.has_conn(id2, c2) && !(id2 == id && c2 == c))
    &&& forall|id2: u128|
        #[trigger] b.known(id2) <==> if id2 == id {
            exists|c2: u64| c2 != c && a.has_conn(id2, c2)
        } else {
            a.known(id2)
        }
}

/// `a` and `b` list exactly the same live connections.
pub open spec fn same_sessions(a: SessionStore, b: SessionStore) -> bool {
    &&& forall|id2: u128, c2: u64| #[trigger] b.has_conn(id2, c2) <==> a.has_conn(id2, c2)
    &&& forall|id2: u128| #[trigger] b.known(id2) <==> a.known(id2)
}

impl SessionStore {
    /// The table never lists the same `(identity, connection)` pair twice.
    pub closed spec fn wf(self) -> bool {
        self.live@.no_duplicates()
    }

    /// Connection `c` is currently live for identity `id`.
    pub closed spec fn has_conn(self, id: u128, c: u64) -> bool {
        self.live@.contains((id, c))
    }

    /// Identity `id` has at least one live connection.
    pub closed spec fn known(self, id: u128) -> bool {
        seq_knows(self.live@, id)
    }

    /// An empty store: nobody is connected.
    pub fn new() -> (r: SessionStore)
        ensures
            r.wf(),
            forall|id: u128, c: u64| !r.has_conn(id, c),
            forall|id: u128| !r.known(id),
    {
        SessionStore { live: Vec::new() }
    }

    #[verifier::loop_isolation(false)]
    fn contains_pair(&self, id: u128, c: u64) -> (r: bool)
        ensures
            r == self.has_conn(id, c),
    {
        let mut i: usize = 0;
        while i < self.live.len()
            invariant
                i <= self.live@.len(),
                forall|k: int| 0 <= k < i ==> self.live@[k] != (id, c),
            decreases self.live@.len() - i,
        {
            if self.live[i].0 == id && self.live[i].1 == c {
                return true;
            }
            i = i + 1;
        }
        false
    }

    /// Adds connection `c` under identity `id`; no effect if the pair is
    /// already listed, so registering twice leaves no duplicate entry.
    pub fn register(&mut self, id: u128, c: u64)
        requires
            old(self).wf(),
        ensures
            final(self).wf(),
            registered(*old(self), *final(self), id, c),
    {
        if !self.contains_pair(id, c) {
            let ghost pre = self.live@;
            self.live.push((id, c));
            proof {
                assert forall|id2: u128, c2: u64|
                    self.has_conn(id2, c2) <==> (pre.contains((id2, c2)) || (id2 == id && c2
                        == c)) by {
                    if pre.contains((id2, c2)) {
                        let k = choose|k: int| 0 <= k < pre.len() && pre[k] == (id2, c2);
                        assert(self.live@[k] == (id2, c2));
                        assert(self.live@.contains((id2, c2)));
                    }
                    if id2 == id && c2 == c {
                        assert(self.live@[pre.len() as int] == (id2, c2));
                        assert(self.live@.contains((id2, c2)));
                    }
                    if self.has_conn(id2, c2) {
                        let k = choose|k: int|
                            0 <= k < self.live@.len() && self.live@[k] == (id2, c2);
                        if k < pre.len() {
                            assert(pre[k] == (id2, c2));
                            assert(pre.contains((id2, c2)));
                        }
                    }
                }
                assert forall|id2: u128| self.known(id2) <==> (old(self).known(id2) || id2
                    == id) by {
                    if old(self).known(id2) {
                        let k = choose|k: int| 0 <= k < pre.len() && (#[trigger] pre[k]).0 == id2;
                        assert(self.live@[k].0 == id2);
                    }
                    if id2 == id {
                        assert(self.live@[pre.len() as int].0 == id);
                    }
                    if self.known(id2) {
                        let k = choose|k: int|
                            0 <= k < self.live@.len() && (#[trigger] self.live@[k]).0 == id2;
                        if k < pre.len() {
                            assert(pre[k].0 == id2);
                        }
                    }
                }
            }
        } else {
            proof {
                assert forall|id2: u128| self.known(id2) <==> (old(self).known(id2) || id2
                    == id) by {
                    if id2 == id {
                        let k = choose|k: int|
                            0 <= k < self.live@.len() && self.live@[k] == (id, c);
                        assert(self.live@[k].0 == id);
                    }
                }
            }
        }
    }

    /// Removes connection `c` from identity `id`; a no-op when the pair is not
    /// listed (an unknown identity included). When `c` was the identity's last
    /// connection, the identity's entry is gone entirely.
    #[verifier::loop_isolation(false)]
    pub fn unregister(&mut self, id: u128, c: u64)
        requires
            old(self).wf(),
        ensures
            final(self).wf(),
            unregistered(*old(self), *final(self), id, c),
    {
        let ghost pre = self.live@;
        let mut i: usize = 0;
        while i < self.live.len()
            invariant
                i <= self.live@.len(),
                self.live@ == pre,
                forall|k: int| 0 <= k < i ==> self.live@[k] != (id, c),
            decreases self.live@.len() - i,
        {
            if self.live[i].0 == id && self.live[i].1 == c {
                self.live.remove(i);
                proof {
                    Self::lemma_removed(pre, self.live@, i as int, id, c);
                    assert forall|id2: u128|
                        self.known(id2) <==> if id2 == id {
                            exists|c2: u64| c2 != c && old(self).has_conn(id2, c2)
                        } else {
                            old(self).known(id2)
                        } by {
                        if id2 == id {
                            if exists|c2: u64| c2 != c && pre.contains((id2, c2)) {
                                let c2 = choose|c2: u64| c2 != c && pre.contains((id2, c2));
                                assert(old(self).has_conn(id2, c2));
                            }
                            if exists|c2: u64| c2 != c && old(self).has_conn(id2, c2) {
                                let c2 = choose|c2: u64|
                                    c2 != c && old(self).has_conn(id2, c2);
                                assert(pre.contains((id2, c2)));
                            }
                        }
                    }
                }
                return ;
            }
            i = i + 1;
        }
        proof {
            assert forall|id2: u128|
                self.known(id2) <==> if id2 == id {
                    exists|c2: u64| c2 != c && old(self).has_conn(id2, c2)
                } else {
                    old(self).known(id2)
                } by {
                if id2 == id && self.known(id2) {
                    let k = choose|k: int| 0 <= k < pre.len() && (#[trigger] pre[k]).0 == id2;
                    assert(pre[k] != (id, c));
                    assert(pre[k] == (pre[k].0, pre[k].1));
                    assert(pre[k].1 != c);
                    assert(pre.contains((id2, pre[k].1)));
                    assert(old(self).has_conn(id2, pre[k].1));
                }
                if id2 == id && (exists|c2: u64| c2 != c && old(self).has_conn(id2, c2)) {
                    let c2 = choose|c2: u64| c2 != c && old(self).has_conn(id2, c2);
                    let k = choose|k: int| 0 <= k < pre.len() && pre[k] == (id2, c2);
                    assert(self.live@[k].0 == id2);
                }
            }
            assert forall|id2: u128, c2: u64|
                self.has_conn(id2, c2) <==> (old(self).has_conn(id2, c2) && !(id2 == id && c2
                    == c)) by {
                if id2 == id && c2 == c && pre.contains((id2, c2)) {
                    let k = choose|k: int| 0 <= k < pre.len() && pre[k] == (id2, c2);
                    assert(pre[k] == (id, c));
                }
            }
        }
    }

    /// What removing index `i` (holding the pair `(id, c)`, listed only once)
    /// does to the spec-level predicates.
    proof fn lemma_removed(pre: Seq<(u128, u64)>, post: Seq<(u128, u64)>, i: int, id: u128, c: u64)
        requires
            pre.no_duplicates(),
            0 <= i < pre.len(),
            pre[i] == (id, c),
            post == pre.remove(i),
        ensures
            post.no_duplicates(),
            forall|id2: u128, c2: u64|
                post.contains((id2, c2)) <==> (pre.contains((id2, c2)) && !(id2 == id && c2
                    == c)),
            forall|id2: u128|
                #[trigger] seq_knows(post, id2) <==> if id2 == id {
                    exists|c2: u64| c2 != c && pre.contains((id2, c2))
                } else {
                    seq_knows(pre, id2)
                },
    {
        pre.remove_ensures(i);
        assert forall|id2: u128, c2: u64|
            post.contains((id2, c2)) <==> (pre.contains((id2, c2)) && !(id2 == id && c2
                == c)) by {
            if post.contains((id2, c2)) {
                let k = choose|k: int| 0 <= k < post.len() && post[k] == (id2, c2);
                if k < i {
                    assert(pre[k] == (id2, c2));
                } else {
                    assert(pre[k + 1] == (id2, c2));
                }
                assert(pre.contains((id2, c2)));
                if id2 == id && c2 == c {
                    if k < i {
                        assert(pre[k] == pre[i]);
                    } else {
                        assert(pre[k + 1] == pre[i]);
                    }
                }
            }
            if pre.contains((id2, c2)) && !(id2 == id && c2 == c) {
                let k = choose|k: int| 0 <= k < pre.len() && pre[k] == (id2, c2);
                if k < i {
                    assert(post[k] == (id2, c2));
                } else {
                    assert(k != i);
                    assert(post[k - 1] == (id2, c2));
                }
                assert(post.contains((id2, c2)));
            }
        }
        assert forall|id2: u128|
            #[trigger] seq_knows(post, id2) <==> if id2 == id {
                exists|c2: u64| c2 != c && pre.contains((id2, c2))
            } else {
                seq_knows(pre, id2)
            } by {
            if seq_knows(post, id2) {
                let k = choose|k: int| 0 <= k < post.len() && (#[trigger] post[k]).0 == id2;
                assert(post[k] == (post[k].0, post[k].1));
                assert(post.contains((post[k].0, post[k].1)));
                assert(pre.contains((post[k].0, post[k].1)));
                if id2 == id {
                    assert(post[k].1 != c && pre.contains((id2, post[k].1)));
                } else {
                    let j = choose|j: int| 0 <= j < pre.len() && pre[j] == (post[k].0, post[k].1);
                    assert(pre[j].0 == id2);
                }
            }
            if id2 == id && (exists|c2: u64| c2 != c && pre.contains((id2, c2))) {
                let c2 = choose|c2: u64| c2 != c && pre.contains((id2, c2));
                assert(post.contains((id2, c2)));
                let k = choose|k: int| 0 <= k < post.len() && post[k] == (id2, c2);
                assert(post[k].0 == id2);
            }
            if id2 != id && seq_knows(pre, id2) {
                let k = choose|k: int| 0 <= k < pre.len() && (#[trigger] pre[k]).0 == id2;
                assert(pre[k] == (pre[k].0, pre[k].1));
                assert(pre.contains((pre[k].0, pre[k].1)));
                assert(post.contains((pre[k].0, pre[k].1)));
                let j = choose|j: int| 0 <= j < post.len() && post[j] == (pre[k].0, pre[k].1);
                assert(post[j].0 == id2);
            }
        }
    }

    /// The set of connections live for `id` now; empty when `id` is unknown.
    #[verifier::loop_isolation(false)]
    pub fn lookup(&self, id: u128) -> (r: Vec<u64>)
        ensures
            forall|c: u64| r@.contains(c) <==> self.has_conn(id, c),
            self.wf() ==> r@.no_duplicates(),
    {
        let mut r: Vec<u64> = Vec::new();
        let mut i: usize = 0;
        while i < self.live.len()
            invariant
                i <= self.live@.len(),
                forall|c: u64|
                    r@.contains(c) <==> exists|k: int|
                        0 <= k < i && self.live@[k] == (id, c),
                self.wf() ==> r@.no_duplicates(),
            decreases self.live@.len() - i,
        {
            let ghost rpre = r@;
            if self.live[i].0 == id {
                r.push(self.live[i].1);
                proof {
                    if self.wf() {
                        // the pushed connection is new to r: a pair is listed
                        // only once, so no earlier index holds it
                        if rpre.contains(self.live@[i as int].1) {
                            let k = choose|k: int|
                                0 <= k < i && self.live@[k] == (id, self.live@[i as int].1);
                            assert(self.live@[i as int] == (
                                self.live@[i as int].0,
                                self.live@[i as int].1,
                            ));
                            assert(self.live@[k] == self.live@[i as int]);
                        }
                        assert forall|a: int, b: int|
                            0 <= a < b < r@.len() implies r@[a] != r@[b] by {
                            if b < rpre.len() {
                                assert(rpre[a] != rpre[b]);
                            } else {
                                if r@[a] == r@[b] {
                                    assert(rpre.contains(self.live@[i as int].1));
                                }
                            }
                        }
                    }
                }
            }
            proof {
                assert forall|c: u64|
                    r@.contains(c) <==> exists|k: int|
                        0 <= k < i + 1 && self.live@[k] == (id, c) by {
                    if r@.contains(c) {
                        let j = choose|j: int| 0 <= j < r@.len() && r@[j] == c;
                        if j < rpre.len() {
                            assert(rpre.contains(c));
                            let k = choose|k: int| 0 <= k < i && self.live@[k] == (id, c);
                            assert(0 <= k < i + 1 && self.live@[k] == (id, c));
                        } else {
                            assert(self.live@[i as int] == (id, c));
                        }
                    }
                    if exists|k: int| 0 <= k < i + 1 && self.live@[k] == (id, c) {
                        let k = choose|k: int| 0 <= k < i + 1 && self.live@[k] == (id, c);
                        if k < i {
                            assert(rpre.contains(c));
                            if rpre != r@ {
                                let j = choose|j: int| 0 <= j < rpre.len() && rpre[j] == c;
                                assert(r@[j] == c);
                            }
                            assert(r@.contains(c));
                        } else {
                            assert(r@[r@.len() - 1] == c);
                        }
                    }
                }
            }
            i = i + 1;
        }
        proof {
            assert forall|c: u64| r@.contains(c) <==> self.has_conn(id, c) by {
                if self.has_conn(id, c) {
                    let k = choose|k: int|
                        0 <= k < self.live@.len() && self.live@[k] == (id, c);
                    assert(0 <= k < i && self.live@[k] == (id, c));
                }
                if r@.contains(c) {
                    let k = choose|k: int| 0 <= k < i && self.live@[k] == (id, c);
                    assert(self.live@.contains((id, c)));
                }
            }
        }
        r
    }
}

/// Session lifecycle, end to end: while an identity has no live connection its
/// lookup is empty; after registering connection `c` the lookup lists `c`;
/// after unregistering `c` again it is absent, and when `c` was the sole
/// connection the identity's entry is gone entirely.
pub proof fn lemma_session_lifecycle(
    s0: SessionStore,
    s1: SessionStore,
    s2: SessionStore,
    id: u128,
    c: u64,
)
    requires
        s0.wf(),
        !s0.known(id),
        // s1 is s0 after `register(id, c)`
        registered(s0, s1, id, c),
        // s2 is s1 after `unregister(id, c)`
        unregistered(s1, s2, id, c),
    ensures
        forall|c2: u64| !s0.has_conn(id, c2),
        s1.has_conn(id, c),
        !s2.has_conn(id, c),
        (forall|c2: u64| s1.has_conn(id, c2) ==> c2 == c) ==> !s2.known(id),
{
    assert forall|c2: u64| !s0.has_conn(id, c2) by {
        s0.lemma_conn_implies_known(id, c2);
    }
}

impl SessionStore {
    /// A listed connection makes its identity known.
    pub proof fn lemma_conn_implies_known(self, id: u128, c: u64)
        ensures
            self.has_conn(id, c) ==> self.known(id),
    {
        if self.has_conn(id, c) {
            let k = choose|k: int| 0 <= k < self.live@.len() && self.live@[k] == (id, c);
            assert(self.live@[k].0 == id);
        }
    }
}

} // verus!
