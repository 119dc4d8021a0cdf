//! The mailbox that carries persistence requests from their producers to
//! the one consumer.
//!
//! The mailbox is bounded: it holds at most `N` requests, in a ring of `N`
//! cells, and never allocates. A producer never waits for the store. When
//! the mailbox is full the request is turned away and the producer is told
//! so; nothing that was accepted is dropped to make room. A request for a
//! slot that the store does not have is turned away at the door.
//!
//! Requests leave in the order in which they were accepted. That is the
//! order of one producer's requests among themselves; between producers it
//! is the order in which their sends happened to arrive, and means nothing
//! more.

use vstd::prelude::*;
use crate::bond::{PersistenceRequest, BONDED_DEVICE_NUM};

verus! {

/// Number of requests that the controller's mailbox holds: room for one
/// request for each slot.
pub const MAILBOX_CAPACITY: usize = BONDED_DEVICE_NUM;

/// Why a request was turned away.
#[derive(Clone, Copy, Debug, PartialEq, Eq, Structural)]
pub enum SendError {
    /// The request is for a slot that the store does not have.
    SlotOutOfRange,
    /// The mailbox holds as many requests as it can.
    Full,
}

/// What a send into a queue of the given capacity is answered with.
pub open spec fn send_result(
    queue: Seq<PersistenceRequest>,
    capacity: nat,
    request: PersistenceRequest,
) -> Result<(), SendError> {
    if !request.in_range() {
        Err(SendError::SlotOutOfRange)
    } else if queue.len() >= capacity {
        Err(SendError::Full)
    } else {
        Ok(())
    }
}

/// The queue after a send: longer by the request at its end if the request
/// was accepted, and as before if not.
pub open spec fn after_send(
    queue: Seq<PersistenceRequest>,
    capacity: nat,
    request: PersistenceRequest,
) -> Seq<PersistenceRequest> {
    if send_result(queue, capacity, request) is Ok {
        queue.push(request)
    } else {
        queue
    }
}

/// Whether every request of a queue is for a slot that the store has.
pub open spec fn all_in_range(queue: Seq<PersistenceRequest>) -> bool {
    forall|i: int| 0 <= i < queue.len() ==> (#[trigger] queue[i]).in_range()
}

/// The cell that lies `i` cells after the first of a ring of `n` cells,
/// for `i` below twice `n`.
spec fn wrap(i: int, n: int) -> int {
    if i < n {
        i
    } else {
        i - n
    }
}

/// Whether cell `k` of a ring of `n` cells is among the `len` cells that
/// begin at `head`.
spec fn occupied(head: int, len: int, n: int, k: int) -> bool {
    if head + len <= n {
        head <= k < head + len
    } else {
        head <= k || k < head + len - n
    }
}

/// A bounded queue of persistence requests, first in, first out.
#[derive(Debug)]
pub struct BondingMailbox<const N: usize> {
    slots: [PersistenceRequest; N],
    head: usize,
    len: usize,
}

impl<const N: usize> BondingMailbox<N> {
    /// The requests lie in `len` cells from `head` on, round the end of the
    /// ring, and each is for a slot that the store has.
    #[verifier::type_invariant]
    spec fn well_formed(self) -> bool {
        &&& self.len <= N
        &&& (self.head < N || (N == 0 && self.head == 0))
        &&& forall|k: int|
            0 <= k < N && occupied(self.head as int, self.len as int, N as int, k) ==> (
            #[trigger] self.slots[k]).in_range()
    }

    /// The requests that wait, the next to leave first.
    pub closed spec fn view(&self) -> Seq<PersistenceRequest> {
        Seq::new(self.len as nat, |i: int| self.slots[wrap(self.head + i, N as int)])
    }

    /// An empty mailbox.
    pub fn new() -> (mailbox: Self)
        ensures
            mailbox@ == Seq::<PersistenceRequest>::empty(),
    {
        let mailbox = BondingMailbox { slots: [PersistenceRequest::Clear(0); N], head: 0, len: 0 };
        assert(mailbox@ =~= Seq::<PersistenceRequest>::empty());
        mailbox
    }

    /// The number of requests that the mailbox can hold.
    pub fn capacity(&self) -> (capacity: usize)
        ensures
            capacity == N,
    {
        N
    }

    /// The number of requests that wait: never more than the mailbox can
    /// hold, and each of them for a slot that the store has.
    pub fn len(&self) -> (len: usize)
        ensures
            len == self@.len(),
            len <= N,
            all_in_range(self@),
    {
        proof {
            use_type_invariant(self);
        }
        self.len
    }

    /// Whether no request waits.
    pub fn is_empty(&self) -> (empty: bool)
        ensures
            empty == (self@.len() == 0),
    {
        self.len == 0
    }

    /// Whether the next send of a request would find no room.
    pub fn is_full(&self) -> (full: bool)
        ensures
            full == (self@.len() >= N),
    {
        proof {
            use_type_invariant(self);
        }
        self.len == N
    }

    /// Puts a request at the end of the queue, unless it is for a slot that
    /// the store does not have or the mailbox is full. The producer goes on
    /// at once either way.
    pub fn try_send(&mut self, request: PersistenceRequest) -> (result: Result<(), SendError>)
        ensures
            result == send_result(old(self)@, N as nat, request),
            final(self)@ == after_send(old(self)@, N as nat, request),
    {
        proof {
            use_type_invariant(&*self);
        }
        if !request.in_range() {
            return Err(SendError::SlotOutOfRange);
        }
        if self.len == N {
            return Err(SendError::Full);
        }
        let tail = if self.head >= N - self.len {
            self.head - (N - self.len)
        } else {
            self.head + self.len
        };
        assert(tail == wrap(self.head + self.len, N as int));
        self.slots[tail] = request;
        self.len = self.len + 1;
        assert(self@ =~= old(self)@.push(request));
        Ok(())
    }

    /// Takes the request at the front of the queue, if there is one.
    pub fn try_receive(&mut self) -> (received: Option<PersistenceRequest>)
        ensures
            old(self)@.len() == 0 ==> received is None && final(self)@ == old(self)@,
            old(self)@.len() > 0 ==> received == Some(old(self)@.first()) && final(self)@ == old(
                self,
            )@.drop_first(),
            received matches Some(request) ==> request.in_range(),
    {
        proof {
            use_type_invariant(&*self);
        }
        if self.len == 0 {
            return None;
        }
        let request = self.slots[self.head];
        let next = if self.head + 1 == N {
            0
        } else {
            self.head + 1
        };
        self.len = self.len - 1;
        self.head = next;
        assert(self@ =~= old(self)@.drop_first());
        Some(request)
    }
}

} // verus!
