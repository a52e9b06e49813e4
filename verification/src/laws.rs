//! The session state machine's laws: facts that relate several transitions,
//! stated over the same spec-level steps the exec contracts use.

use vstd::prelude::*;
use crate::session::{
    connect_step, enqueue_step, leave_step, needs_join, PlayMode, SessionView, Track,
};

verus! {

/// A `play` issued on a disconnected session, with the requester in some
/// channel, connects to that channel and leaves exactly the newly resolved
/// track in the queue, playing.
pub proof fn lemma_play_from_disconnected(v: SessionView, channel: u64, t: Track)
    requires
        v.wf(),
        v.connection is None,
        t.wf(),
    ensures
        ({
            let after = enqueue_step(connect_step(v, channel), t);
            &&& after.connection == Some(channel)
            &&& after.mode == PlayMode::Playing
            &&& after.queue =~= seq![t]
            &&& after.wf()
        }),
{
    let after = enqueue_step(connect_step(v, channel), t);
    assert(v.queue.len() == 0);
    assert(after.queue =~= seq![t]);
}

/// Two `play`s enqueued in succession keep first-in-first-out order: both
/// tracks stand at the tail, in the order issued, and none is lost.
pub proof fn lemma_play_twice_fifo(v: SessionView, t1: Track, t2: Track)
    requires
        v.wf(),
        v.connection is Some,
        t1.wf(),
        t2.wf(),
    ensures
        ({
            let after = enqueue_step(enqueue_step(v, t1), t2);
            &&& after.queue =~= v.queue + seq![t1, t2]
            &&& after.queue.len() == v.queue.len() + 2
            &&& after.wf()
        }),
{
    let mid = enqueue_step(v, t1);
    let after = enqueue_step(mid, t2);
    assert(after.queue =~= v.queue + seq![t1, t2]);
    assert forall|i: int| 0 <= i < after.queue.len() implies (#[trigger] after.queue[i]).wf() by {
        if i < v.queue.len() {
            assert(after.queue[i] == v.queue[i]);
        }
    }
}

/// After a `leave`, a `current` inquiry can only report the not-in-channel
/// state: the torn-down session holds no connection and no queue, so no
/// stale metadata survives the disconnect.
pub proof fn lemma_leave_clears_session(v: SessionView)
    requires
        v.wf(),
    ensures
        leave_step(v).connection is None,
        leave_step(v).queue.len() == 0,
        leave_step(v).wf(),
{
}

/// Of two `play` commands serialized on one session, at most one passes the
/// need-to-join check: once a connect is recorded, the decision for the
/// next command is to reuse the connection, whatever channel it targets.
pub proof fn lemma_single_connect(v: SessionView, channel: u64)
    requires
        v.wf(),
        needs_join(v),
    ensures
        !needs_join(connect_step(v, channel)),
        connect_step(v, channel).wf(),
{
}

} // verus!
