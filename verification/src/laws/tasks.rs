//! The bookkeeping of outgoing handshakes.

use crate::outgoing;
use crate::peers;
use vstd::prelude::*;

verus! {

/// What happens to a task: someone asks for a remote to be authenticated towards, a handshake
/// ends (with success or not), or a remote joins the allowed ones from the acceptor's side.
pub enum TaskEvent<W> {
    Request(Seq<u8>, W),
    Complete(Seq<u8>, bool),
    Join(Seq<u8>),
}

/// The remotes that are allowed and those who wait, after an event.
pub open spec fn task_step<W>(
    state: (Set<Seq<u8>>, Map<Seq<u8>, Seq<W>>),
    event: TaskEvent<W>,
) -> (Set<Seq<u8>>, Map<Seq<u8>, Seq<W>>) {
    let (allowed, pending) = state;
    match event {
        TaskEvent::Request(remote, waiter) => (
            allowed,
            outgoing::pending_after_request(allowed, pending, remote, waiter),
        ),
        TaskEvent::Complete(remote, success) => (
            if success {
                allowed.insert(remote)
            } else {
                allowed
            },
            pending.remove(remote),
        ),
        TaskEvent::Join(remote) => (allowed.insert(remote), pending),
    }
}

/// The remotes that are allowed and those who wait, after a series of events.
pub open spec fn task_after<W>(events: Seq<TaskEvent<W>>) -> (
    Set<Seq<u8>>,
    Map<Seq<u8>, Seq<W>>,
)
    decreases events.len(),
{
    if events.len() == 0 {
        (Set::empty(), Map::empty())
    } else {
        task_step(task_after(events.drop_last()), events.last())
    }
}

/// Whether handshakes end only after they were started.
pub open spec fn in_order<W>(events: Seq<TaskEvent<W>>) -> bool
    decreases events.len(),
{
    events.len() > 0 ==> {
        &&& in_order(events.drop_last())
        &&& events.last() matches TaskEvent::Complete(remote, _) ==> task_after(
            events.drop_last(),
        ).1.contains_key(remote)
    }
}

/// How many handshakes with a remote have been started and have not ended.
pub open spec fn handshakes_open<W>(events: Seq<TaskEvent<W>>, remote: Seq<u8>) -> int
    decreases events.len(),
{
    if events.len() == 0 {
        0
    } else {
        let before = handshakes_open(events.drop_last(), remote);
        let (allowed, pending) = task_after(events.drop_last());
        match events.last() {
            TaskEvent::Request(asked, waiter) => if asked == remote && outgoing::requested(
                allowed,
                pending,
                asked,
                waiter,
            ) is Dial {
                before + 1
            } else {
                before
            },
            TaskEvent::Complete(ended, _) => if ended == remote {
                before - 1
            } else {
                before
            },
            TaskEvent::Join(_) => before,
        }
    }
}

/// There is never more than one handshake under way with a remote, however many ask for it: one
/// if someone waits for it, and none otherwise.
pub proof fn one_handshake_per_remote<W>(events: Seq<TaskEvent<W>>, remote: Seq<u8>)
    requires
        in_order(events),
    ensures
        handshakes_open(events, remote) == (if task_after(events).1.contains_key(remote) {
            1int
        } else {
            0int
        }),
    decreases events.len(),
{
    if events.len() > 0 {
        one_handshake_per_remote(events.drop_last(), remote);
    }
}

/// Whether an event makes the remote an allowed one.
pub open spec fn allows<W>(event: TaskEvent<W>, remote: Seq<u8>) -> bool {
    match event {
        TaskEvent::Request(_, _) => false,
        TaskEvent::Complete(ended, success) => success && ended == remote,
        TaskEvent::Join(joined) => joined == remote,
    }
}

/// A remote is allowed exactly if a handshake with it has succeeded, on either side. A failure is
/// not remembered, and a success is never forgotten.
pub proof fn success_is_remembered<W>(events: Seq<TaskEvent<W>>, remote: Seq<u8>)
    ensures
        task_after(events).0.contains(remote) <==> exists|i: int|
            0 <= i < events.len() && allows(#[trigger] events[i], remote),
    decreases events.len(),
{
    if events.len() > 0 {
        let before = events.drop_last();
        success_is_remembered(before, remote);
        if task_after(before).0.contains(remote) {
            let i = choose|i: int| 0 <= i < before.len() && allows(#[trigger] before[i], remote);
            assert(allows(events[i], remote));
        }
        if exists|i: int| 0 <= i < events.len() && allows(#[trigger] events[i], remote) {
            let i = choose|i: int| 0 <= i < events.len() && allows(#[trigger] events[i], remote);
            if i < before.len() {
                assert(allows(before[i], remote));
            }
        }
        if allows(events.last(), remote) {
            assert(allows(events[events.len() - 1], remote));
        }
    }
}

/// What a request is answered once a handshake with its remote has ended: after a success it goes
/// on at once, without another handshake; after a failure, a new one is started.
pub proof fn completion_decides_the_next_request<W>(
    state: (Set<Seq<u8>>, Map<Seq<u8>, Seq<W>>),
    remote: Seq<u8>,
    success: bool,
    waiter: W,
)
    ensures
        ({
            let (allowed, pending) = task_step(state, TaskEvent::Complete(remote, success));
            let request = outgoing::requested(allowed, pending, remote, waiter);
            if success || state.0.contains(remote) {
                request == peers::Request::Admit(waiter)
            } else {
                request == peers::Request::<W>::Dial
            }
        }),
{
}

/// The waiters of requests for the remote that were not answered at once, since the last
/// handshake with it ended.
pub open spec fn unanswered<W>(events: Seq<TaskEvent<W>>, remote: Seq<u8>) -> Seq<W>
    decreases events.len(),
{
    if events.len() == 0 {
        Seq::empty()
    } else {
        let before = unanswered(events.drop_last(), remote);
        match events.last() {
            TaskEvent::Request(asked, waiter) => if asked == remote && !task_after(
                events.drop_last(),
            ).0.contains(remote) {
                before.push(waiter)
            } else {
                before
            },
            TaskEvent::Complete(ended, _) => if ended == remote {
                Seq::empty()
            } else {
                before
            },
            TaskEvent::Join(_) => before,
        }
    }
}

/// Nobody who waits is forgotten or told twice: those who are told the end of a handshake are the
/// ones who asked for the remote since the last one ended, each once and in the order in which
/// they asked.
pub proof fn waiters_are_kept_in_order<W>(events: Seq<TaskEvent<W>>, remote: Seq<u8>)
    ensures
        peers::waiting(task_after(events).1, remote) == unanswered(events, remote),
    decreases events.len(),
{
    if events.len() > 0 {
        waiters_are_kept_in_order(events.drop_last(), remote);
    }
}

/// Where every remote is allowed by the task's own handshakes, nobody waits for a remote that is
/// allowed.
pub proof fn allowed_and_pending_stay_apart<W>(events: Seq<TaskEvent<W>>, remote: Seq<u8>)
    requires
        forall|i: int| 0 <= i < events.len() ==> !(#[trigger] events[i] is Join),
    ensures
        !(task_after(events).0.contains(remote) && task_after(events).1.contains_key(remote)),
    decreases events.len(),
{
    if events.len() > 0 {
        let before = events.drop_last();
        assert forall|i: int| 0 <= i < before.len() implies !(#[trigger] before[i] is Join) by {
            assert(before[i] == events[i]);
        }
        assert(!(events[events.len() - 1] is Join));
        allowed_and_pending_stay_apart(before, remote);
    }
}

} // verus!
