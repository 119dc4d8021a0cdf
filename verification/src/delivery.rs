//! The way of a run of requests from a producer through the mailbox to the
//! store, whatever the order in which producer and writer take their turns.

use vstd::prelude::*;
use crate::bond::{BondRecord, PersistenceRequest};
use crate::coordinator::{apply_all, apply_request};
use crate::mailbox::{after_send, send_result, SendError};

verus! {

/// A producer, the mailbox and the store at one moment.
pub struct Delivery {
    /// The requests that the producer has yet to send, the next first.
    pub pending: Seq<PersistenceRequest>,
    /// The requests that wait in the mailbox, the next to leave first.
    pub queue: Seq<PersistenceRequest>,
    /// What the store holds.
    pub store: Map<u8, BondRecord>,
}

/// Whose turn it is.
pub enum Turn {
    /// The producer sends its next request.
    Producer,
    /// The writer takes a request from the mailbox and serves it.
    Writer,
}

/// The moment before anything is sent.
pub open spec fn start(requests: Seq<PersistenceRequest>, store: Map<u8, BondRecord>) -> Delivery {
    Delivery { pending: requests, queue: Seq::empty(), store }
}

/// A turn of the producer: it sends its next request, if it has one. A
/// request that finds the mailbox full stays the next to send; a request
/// that the mailbox turns away for its slot is given up.
pub open spec fn producer_turn(at: Delivery, capacity: nat) -> Delivery {
    if at.pending.len() == 0 {
        at
    } else if send_result(at.queue, capacity, at.pending.first()) == Err::<(), SendError>(
        SendError::Full,
    ) {
        at
    } else {
        Delivery {
            pending: at.pending.drop_first(),
            queue: after_send(at.queue, capacity, at.pending.first()),
            store: at.store,
        }
    }
}

/// A turn of the writer: it takes the request at the front of the mailbox,
/// if there is one, and serves it on the store.
pub open spec fn writer_turn(at: Delivery) -> Delivery {
    if at.queue.len() == 0 {
        at
    } else {
        Delivery {
            pending: at.pending,
            queue: at.queue.drop_first(),
            store: apply_request(at.store, at.queue.first()),
        }
    }
}

/// The moment after a run of turns.
pub open spec fn run(at: Delivery, capacity: nat, turns: Seq<Turn>) -> Delivery
    decreases turns.len(),
{
    if turns.len() == 0 {
        at
    } else {
        let before = run(at, capacity, turns.drop_last());
        match turns.last() {
            Turn::Producer => producer_turn(before, capacity),
            Turn::Writer => writer_turn(before),
        }
    }
}

/// What the store will hold once everything that waits and everything that
/// is yet to be sent has been served.
pub open spec fn outcome(at: Delivery) -> Map<u8, BondRecord> {
    apply_all(at.store, at.queue + at.pending)
}

/// Serving a run of requests and then one more is serving the run with the
/// one at its end.
pub proof fn lemma_apply_all_push(
    store: Map<u8, BondRecord>,
    requests: Seq<PersistenceRequest>,
    request: PersistenceRequest,
)
    ensures
        apply_all(store, requests.push(request)) == apply_request(
            apply_all(store, requests),
            request,
        ),
    decreases requests.len(),
{
    if requests.len() == 0 {
        assert(requests.push(request).drop_first() =~= Seq::<PersistenceRequest>::empty());
        assert(apply_all(apply_request(store, request), Seq::empty()) == apply_request(
            store,
            request,
        ));
    } else {
        assert(requests.push(request).drop_first() =~= requests.drop_first().push(request));
        lemma_apply_all_push(apply_request(store, requests.first()), requests.drop_first(), request);
    }
}

/// Serving one run of requests and then another is serving the two runs
/// joined.
pub proof fn lemma_apply_all_concat(
    store: Map<u8, BondRecord>,
    first: Seq<PersistenceRequest>,
    second: Seq<PersistenceRequest>,
)
    ensures
        apply_all(store, first + second) == apply_all(apply_all(store, first), second),
    decreases first.len(),
{
    if first.len() == 0 {
        assert(first + second =~= second);
    } else {
        assert((first + second).drop_first() =~= first.drop_first() + second);
        lemma_apply_all_concat(apply_request(store, first.first()), first.drop_first(), second);
    }
}

/// No turn changes what the store will hold in the end.
pub proof fn lemma_turn_keeps_outcome(at: Delivery, capacity: nat)
    ensures
        outcome(producer_turn(at, capacity)) == outcome(at),
        outcome(writer_turn(at)) == outcome(at),
{
    if at.queue.len() > 0 {
        assert((at.queue + at.pending).drop_first() =~= at.queue.drop_first() + at.pending);
    }
    if at.pending.len() > 0 {
        let request = at.pending.first();
        let rest = at.pending.drop_first();
        assert(at.pending =~= seq![request] + rest);
        assert(seq![request].drop_first() =~= Seq::<PersistenceRequest>::empty());
        assert(apply_all(apply_request(apply_all(at.store, at.queue), request), Seq::empty())
            == apply_request(apply_all(at.store, at.queue), request));
        lemma_apply_all_concat(at.store, at.queue, at.pending);
        lemma_apply_all_concat(apply_all(at.store, at.queue), seq![request], rest);
        if send_result(at.queue, capacity, request) is Ok {
            lemma_apply_all_push(at.store, at.queue, request);
            lemma_apply_all_concat(at.store, at.queue.push(request), rest);
        } else {
            lemma_apply_all_concat(at.store, at.queue, rest);
        }
    }
}

/// The requests that one producer sends through the mailbox change the
/// store as they would if they were served on it directly, one after the
/// other in the order of sending. That holds however the turns of the
/// producer and of the writer fall, and whatever the mailbox can hold: at
/// every moment the store is on its way to that state, and it is in that
/// state when nothing waits and nothing is left to send.
pub proof fn law_fifo_apply(
    requests: Seq<PersistenceRequest>,
    store: Map<u8, BondRecord>,
    capacity: nat,
    turns: Seq<Turn>,
)
    ensures
        outcome(run(start(requests, store), capacity, turns)) == apply_all(store, requests),
        ({
            let end = run(start(requests, store), capacity, turns);
            end.pending.len() == 0 && end.queue.len() == 0 ==> end.store == apply_all(
                store,
                requests,
            )
        }),
    decreases turns.len(),
{
    if turns.len() == 0 {
        assert(Seq::<PersistenceRequest>::empty() + requests =~= requests);
    } else {
        law_fifo_apply(requests, store, capacity, turns.drop_last());
        lemma_turn_keeps_outcome(run(start(requests, store), capacity, turns.drop_last()), capacity);
    }
    let end = run(start(requests, store), capacity, turns);
    if end.pending.len() == 0 && end.queue.len() == 0 {
        assert(end.queue + end.pending =~= Seq::<PersistenceRequest>::empty());
    }
}

/// The turns in which producer and writer take `n` turns each, the producer
/// first and the writer after it, again and again.
pub open spec fn in_step(n: nat) -> Seq<Turn>
    decreases n,
{
    if n == 0 {
        Seq::empty()
    } else {
        in_step((n - 1) as nat).push(Turn::Producer).push(Turn::Writer)
    }
}

/// A mailbox with room for one request is enough to serve every run of
/// requests: when producer and writer take their turns in step, as many
/// turns each as there are requests, nothing waits and nothing is left to
/// send, and the store is as direct service of the requests leaves it.
pub proof fn law_delivery_completes(
    requests: Seq<PersistenceRequest>,
    store: Map<u8, BondRecord>,
    capacity: nat,
)
    requires
        capacity > 0,
    ensures
        ({
            let end = run(start(requests, store), capacity, in_step(requests.len()));
            &&& end.pending.len() == 0
            &&& end.queue.len() == 0
            &&& end.store == apply_all(store, requests)
        }),
{
    lemma_in_step_serves(requests, store, capacity, requests.len());
    law_fifo_apply(requests, store, capacity, in_step(requests.len()));
}

/// After `n` turns each, taken in step, the first `n` requests have been
/// sent and served, and nothing waits.
proof fn lemma_in_step_serves(
    requests: Seq<PersistenceRequest>,
    store: Map<u8, BondRecord>,
    capacity: nat,
    n: nat,
)
    requires
        capacity > 0,
        n <= requests.len(),
    ensures
        ({
            let at = run(start(requests, store), capacity, in_step(n));
            &&& at.pending == requests.subrange(n as int, requests.len() as int)
            &&& at.queue.len() == 0
        }),
    decreases n,
{
    if n == 0 {
        assert(requests.subrange(0, requests.len() as int) =~= requests);
    } else {
        let before = (n - 1) as nat;
        lemma_in_step_serves(requests, store, capacity, before);
        let turns = in_step(n);
        let sent = in_step(before).push(Turn::Producer);
        assert(turns.drop_last() =~= sent);
        assert(sent.drop_last() =~= in_step(before));
        let at = run(start(requests, store), capacity, in_step(before));
        let mid = run(start(requests, store), capacity, sent);
        assert(mid == producer_turn(at, capacity));
        assert(at.pending.first() == requests[before as int]);
        assert(at.pending.drop_first() =~= requests.subrange(n as int, requests.len() as int));
        assert(run(start(requests, store), capacity, turns) == writer_turn(mid));
    }
}

} // verus!
