//! Fan-out planning: one event, pushed to every live connection of every
//! recipient. Offline recipients simply have no live connection and are
//! skipped; a failing push is the driver's affair and never touches the plan
//! for the remaining recipients.

use vstd::prelude::*;

use crate::protocol::Action;
use crate::session::SessionStore;

verus! {

/// Connection `c` is reached when fanning out to the recipients `rs`: it is
/// live for at least one of them.
pub open spec fn fanout_reaches(s: SessionStore, rs: Seq<u128>, c: u64) -> bool {
    exists|i: int| 0 <= i < rs.len() && s.has_conn(rs[i], c)
}

/// Some action of `acts` pushes to connection `c`.
pub open spec fn pushes_to(acts: Seq<Action>, c: u64) -> bool {
    exists|k: int|
        {
            &&& 0 <= k < acts.len()
            &&& (#[trigger] acts[k]) matches Action::Push { conn, .. }
            &&& conn == c
        }
}

/// `a` pushes the event `(chat, from, body)` to some connection.
pub open spec fn is_event_push(a: Action, chat: u128, from: Seq<char>, body: Seq<char>) -> bool {
    a matches Action::Push { conn: _, chat_id, from: f, body: b } && chat_id == chat && f@
        == from && b@ == body
}

/// Plans the fan-out of one new-message event: exactly one family of pushes
/// that reaches every live connection of every recipient and nobody else.
#[verifier::loop_isolation(false)]
pub fn plan_fanout(
    sessions: &SessionStore,
    recipients: &Vec<u128>,
    chat: u128,
    from: &String,
    body: &String,
) -> (acts: Vec<Action>)
    ensures
        forall|k: int|
            0 <= k < acts@.len() ==> is_event_push(#[trigger] acts@[k], chat, from@, body@),
        forall|c: u64| #[trigger] pushes_to(acts@, c) <==> fanout_reaches(
            *sessions,
            recipients@,
            c,
        ),
{
    let mut acts: Vec<Action> = Vec::new();
    let mut i: usize = 0;
    while i < recipients.len()
        invariant
            i <= recipients@.len(),
            forall|k: int|
                0 <= k < acts@.len() ==> is_event_push(#[trigger] acts@[k], chat, from@, body@),
            forall|c: u64| #[trigger] pushes_to(acts@, c) <==> fanout_reaches(
                *sessions,
                recipients@.take(i as int),
                c,
            ),
        decreases recipients@.len() - i,
    {
        let conns = sessions.lookup(recipients[i]);
        let mut j: usize = 0;
        while j < conns.len()
            invariant
                j <= conns@.len(),
                forall|k: int|
                    0 <= k < acts@.len() ==> is_event_push(
                        #[trigger] acts@[k],
                        chat,
                        from@,
                        body@,
                    ),
                forall|c: u64| #[trigger] pushes_to(acts@, c) <==> (fanout_reaches(
                    *sessions,
                    recipients@.take(i as int),
                    c,
                ) || (exists|jj: int| 0 <= jj < j && conns@[jj] == c)),
            decreases conns@.len() - j,
        {
            let ghost pre = acts@;
            acts.push(
                Action::Push {
                    conn: conns[j],
                    chat_id: chat,
                    from: from.clone(),
                    body: body.clone(),
                },
            );
            proof {
                assert forall|c: u64| #[trigger] pushes_to(acts@, c) <==> (fanout_reaches(
                    *sessions,
                    recipients@.take(i as int),
                    c,
                ) || (exists|jj: int| 0 <= jj < j + 1 && conns@[jj] == c)) by {
                    if pushes_to(acts@, c) {
                        let k = choose|k: int|
                            {
                                &&& 0 <= k < acts@.len()
                                &&& (#[trigger] acts@[k]) matches Action::Push { conn, .. }
                                &&& conn == c
                            };
                        if k < pre.len() {
                            assert(pre[k] == acts@[k]);
                            assert(pushes_to(pre, c));
                        } else {
                            assert(conns@[j as int] == c);
                        }
                    }
                    if pushes_to(pre, c) {
                        let k = choose|k: int|
                            {
                                &&& 0 <= k < pre.len()
                                &&& (#[trigger] pre[k]) matches Action::Push { conn, .. }
                                &&& conn == c
                            };
                        assert(acts@[k] == pre[k]);
                        assert(pushes_to(acts@, c));
                    }
                    if exists|jj: int| 0 <= jj < j + 1 && conns@[jj] == c {
                        let jj = choose|jj: int| 0 <= jj < j + 1 && conns@[jj] == c;
                        if jj < j {
                            assert(pushes_to(pre, c));
                        } else {
                            assert((acts@[acts@.len() - 1] matches Action::Push { conn, .. }
                                && conn == c));
                            assert(pushes_to(acts@, c));
                        }
                    }
                }
            }
            j = j + 1;
        }
        proof {
            assert forall|c: u64| #[trigger] pushes_to(acts@, c) <==> fanout_reaches(
                *sessions,
                recipients@.take(i as int + 1),
                c,
            ) by {
                let taken = recipients@.take(i as int + 1);
                if pushes_to(acts@, c) {
                    if exists|jj: int| 0 <= jj < j && conns@[jj] == c {
                        assert(conns@.contains(c));
                        assert(sessions.has_conn(recipients@[i as int], c));
                        assert(taken[i as int] == recipients@[i as int]);
                        assert(fanout_reaches(*sessions, taken, c));
                    } else {
                        let ii = choose|ii: int|
                            0 <= ii < recipients@.take(i as int).len() && sessions.has_conn(
                                recipients@.take(i as int)[ii],
                                c,
                            );
                        assert(taken[ii] == recipients@.take(i as int)[ii]);
                        assert(fanout_reaches(*sessions, taken, c));
                    }
                }
                if fanout_reaches(*sessions, taken, c) {
                    let ii = choose|ii: int|
                        0 <= ii < taken.len() && sessions.has_conn(taken[ii], c);
                    if ii < i {
                        assert(recipients@.take(i as int)[ii] == taken[ii]);
                        assert(fanout_reaches(*sessions, recipients@.take(i as int), c));
                    } else {
                        assert(taken[ii] == recipients@[i as int]);
                        assert(conns@.contains(c));
                        let jj = choose|jj: int| 0 <= jj < conns@.len() && conns@[jj] == c;
                        assert(0 <= jj < j && conns@[jj] == c);
                    }
                }
            }
        }
        i = i + 1;
    }
    proof {
        assert(recipients@.take(recipients@.len() as int) =~= recipients@);
    }
    acts
}

/// Fan-out completeness: when the pushes reach exactly the live connections
/// of the recipients, every live connection of every recipient gets one, any
/// push goes to a live connection of some recipient, and a recipient with no
/// live connection is skipped without a push of its own.
pub proof fn lemma_fanout_completeness(
    s: SessionStore,
    recipients: Seq<u128>,
    acts: Seq<Action>,
    member: u128,
    conn: u64,
)
    requires
        forall|c: u64| #[trigger] pushes_to(acts, c) <==> fanout_reaches(s, recipients, c),
        recipients.contains(member),
        s.has_conn(member, conn),
    ensures
        pushes_to(acts, conn),
        forall|c: u64| #[trigger] pushes_to(acts, c) ==> exists|i: int|
            0 <= i < recipients.len() && s.has_conn(recipients[i], c),
{
    let i = choose|i: int| 0 <= i < recipients.len() && recipients[i] == member;
    assert(s.has_conn(recipients[i], conn));
    assert(fanout_reaches(s, recipients, conn));
}

} // verus!
