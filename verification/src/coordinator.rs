//! The one writer of the record store.
//!
//! The writer takes one persistence request at a time, asks the store for
//! the operation that the request stands for, and takes the next request
//! only when the store has answered. Whatever the store answers, the writer
//! goes on: a record that could not be written is lost, the controller is
//! not.
//!
//! The writer does not touch the flash itself. It says what is to be done
//! in its region, and is told when that has ended.

use vstd::prelude::*;
use crate::bond::{BondRecord, PersistenceRequest, BONDED_DEVICE_NUM};
use crate::mailbox::BondingMailbox;
use crate::storage::{store_well_formed, StorageOp, StorageRegion};
use crate::table::BondTable;

verus! {

/// How an operation on the store ended.
#[derive(Clone, Copy, Debug, PartialEq, Eq, Structural)]
pub enum StorageOutcome {
    /// The store did what was asked.
    Done,
    /// The store failed: the flash, its contents or its room.
    Failed,
}

/// Why the writer did not take a request.
#[derive(Clone, Copy, Debug, PartialEq, Eq, Structural)]
pub enum BeginError {
    /// The request is for a slot that the store does not have.
    SlotOutOfRange,
    /// The store has not yet answered the operation before.
    Busy,
}

/// The operation that a request stands for.
pub open spec fn storage_op_for(request: PersistenceRequest) -> StorageOp {
    match request {
        PersistenceRequest::Clear(slot) => StorageOp::Remove(slot),
        PersistenceRequest::Save(record) => StorageOp::Store(record),
    }
}

/// What the writer answers a request with, given the operation that the
/// store has yet to answer, if there is one.
pub open spec fn begin_result(in_flight: Option<StorageOp>, request: PersistenceRequest) -> Result<
    StorageOp,
    BeginError,
> {
    if !request.in_range() {
        Err(BeginError::SlotOutOfRange)
    } else if in_flight is Some {
        Err(BeginError::Busy)
    } else {
        Ok(storage_op_for(request))
    }
}

/// The operation that the store has yet to answer once the writer has
/// answered a request.
pub open spec fn after_begin(in_flight: Option<StorageOp>, request: PersistenceRequest) -> Option<
    StorageOp,
> {
    match begin_result(in_flight, request) {
        Ok(op) => Some(op),
        Err(_) => in_flight,
    }
}

/// What a store holds once a request has been served on it without fault.
/// A request for a slot that the store does not have leaves it as it is.
pub open spec fn apply_request(store: Map<u8, BondRecord>, request: PersistenceRequest) -> Map<
    u8,
    BondRecord,
> {
    if request.in_range() {
        storage_op_for(request).effect(store)
    } else {
        store
    }
}

/// What a store holds once a run of requests has been served on it, the
/// first of the run first.
pub open spec fn apply_all(store: Map<u8, BondRecord>, requests: Seq<PersistenceRequest>) -> Map<
    u8,
    BondRecord,
>
    decreases requests.len(),
{
    if requests.len() == 0 {
        store
    } else {
        apply_all(apply_request(store, requests.first()), requests.drop_first())
    }
}

/// The writer: the region it writes to, and the operation that the store
/// has yet to answer.
#[derive(Debug)]
pub struct FlashCoordinator {
    region: StorageRegion,
    in_flight: Option<StorageOp>,
}

impl FlashCoordinator {
    /// The region that the writer writes to.
    pub closed spec fn region_spec(&self) -> StorageRegion {
        self.region
    }

    /// The operation that the store has yet to answer.
    pub closed spec fn in_flight_spec(&self) -> Option<StorageOp> {
        self.in_flight
    }

    /// A writer for a region, with nothing asked of the store yet.
    pub fn new(region: StorageRegion) -> (coordinator: Self)
        ensures
            coordinator.region() == region,
            coordinator.in_flight() is None,
    {
        FlashCoordinator { region, in_flight: None }
    }

    /// The region that the writer writes to.
    #[verifier::when_used_as_spec(region_spec)]
    pub fn region(&self) -> (region: StorageRegion)
        ensures
            region == self.region_spec(),
    {
        self.region
    }

    /// The operation that the store has yet to answer.
    #[verifier::when_used_as_spec(in_flight_spec)]
    pub fn in_flight(&self) -> (op: Option<StorageOp>)
        ensures
            op == self.in_flight_spec(),
    {
        self.in_flight
    }

    /// Takes a request and says what to ask of the store for it.
    ///
    /// A request for a slot that the store does not have is turned away,
    /// and so is any request while the store has yet to answer: the writer
    /// never has two operations under way.
    pub fn begin(&mut self, request: PersistenceRequest) -> (result: Result<StorageOp, BeginError>)
        ensures
            result == begin_result(old(self).in_flight(), request),
            final(self).in_flight() == after_begin(old(self).in_flight(), request),
            final(self).region() == old(self).region(),
    {
        if !request.in_range() {
            return Err(BeginError::SlotOutOfRange);
        }
        if self.in_flight.is_some() {
            return Err(BeginError::Busy);
        }
        let op = match request {
            PersistenceRequest::Clear(slot) => StorageOp::Remove(slot),
            PersistenceRequest::Save(record) => StorageOp::Store(record),
        };
        self.in_flight = Some(op);
        Ok(op)
    }

    /// Takes note that the store has answered. The writer is free for the
    /// next request, however the operation ended.
    pub fn complete(&mut self, outcome: StorageOutcome)
        ensures
            final(self).in_flight() is None,
            final(self).region() == old(self).region(),
    {
        self.in_flight = None;
    }

    /// Serves every request that waits in a mailbox on a table in memory,
    /// one after the other, as the writer does on the flash. A writer that
    /// still waits for the store serves nothing. Says how many requests it
    /// has served.
    pub fn drain_into<const N: usize>(
        &mut self,
        mailbox: &mut BondingMailbox<N>,
        table: &mut BondTable,
    ) -> (served: usize)
        ensures
            final(self).region() == old(self).region(),
            old(self).in_flight() is Some ==> {
                &&& served == 0
                &&& final(self).in_flight() == old(self).in_flight()
                &&& final(mailbox)@ == old(mailbox)@
                &&& final(table)@ == old(table)@
            },
            old(self).in_flight() is None ==> {
                &&& served == old(mailbox)@.len()
                &&& final(self).in_flight() is None
                &&& final(mailbox)@.len() == 0
                &&& final(table)@ == apply_all(old(table)@, old(mailbox)@)
            },
    {
        let mut served: usize = 0;
        if self.in_flight.is_some() {
            return served;
        }
        let waiting = mailbox.len();
        while served < waiting
            invariant
                self.in_flight() is None,
                self.region() == old(self).region(),
                waiting == old(mailbox)@.len(),
                served <= waiting,
                mailbox@.len() == waiting - served,
                apply_all(table@, mailbox@) == apply_all(old(table)@, old(mailbox)@),
            decreases waiting - served,
        {
            let received = mailbox.try_receive();
            if let Some(request) = received {
                if let Ok(op) = self.begin(request) {
                    table.apply(op);
                    self.complete(StorageOutcome::Done);
                }
            }
            served = served + 1;
        }
        served
    }
}

/// A call to the writer.
#[derive(Clone, Copy, Debug, PartialEq, Eq, Structural)]
pub enum CoordinatorCall {
    /// A request is handed to the writer.
    Begin(PersistenceRequest),
    /// The writer is told that the store has answered.
    Complete(StorageOutcome),
}

/// The operation that the store has yet to answer after a call.
pub open spec fn after_call(in_flight: Option<StorageOp>, call: CoordinatorCall) -> Option<
    StorageOp,
> {
    match call {
        CoordinatorCall::Begin(request) => after_begin(in_flight, request),
        CoordinatorCall::Complete(_) => None,
    }
}

/// The operation that the store has yet to answer after a run of calls to
/// a new writer.
pub open spec fn in_flight_after(calls: Seq<CoordinatorCall>) -> Option<StorageOp>
    decreases calls.len(),
{
    if calls.len() == 0 {
        None
    } else {
        after_call(in_flight_after(calls.drop_last()), calls.last())
    }
}

/// The number of operations that a new writer asks of the store in a run
/// of calls.
pub open spec fn issued(calls: Seq<CoordinatorCall>) -> nat
    decreases calls.len(),
{
    if calls.len() == 0 {
        0
    } else {
        let before = calls.drop_last();
        match calls.last() {
            CoordinatorCall::Begin(request) => if begin_result(in_flight_after(before), request)
                is Ok {
                issued(before) + 1
            } else {
                issued(before)
            },
            CoordinatorCall::Complete(_) => issued(before),
        }
    }
}

/// The number of those operations that the store has answered in the run.
pub open spec fn answered(calls: Seq<CoordinatorCall>) -> nat
    decreases calls.len(),
{
    if calls.len() == 0 {
        0
    } else {
        let before = calls.drop_last();
        match calls.last() {
            CoordinatorCall::Begin(_) => answered(before),
            CoordinatorCall::Complete(_) => if in_flight_after(before) is Some {
                answered(before) + 1
            } else {
                answered(before)
            },
        }
    }
}

/// The writer serves a request by the operation that it answers the
/// request with, and a request that it turns away for its slot is served
/// by leaving the store alone.
pub proof fn law_writer_serves_request(store: Map<u8, BondRecord>, request: PersistenceRequest)
    ensures
        apply_request(store, request) == (match begin_result(None, request) {
            Ok(op) => op.effect(store),
            Err(_) => store,
        }),
{
}

/// Clearing a slot leaves no record under it, whether or not there was
/// one, and clearing it again changes nothing. The writer takes the
/// request for any slot that the store has, record or no record.
pub proof fn law_clear_is_idempotent(store: Map<u8, BondRecord>, slot: u8)
    requires
        store_well_formed(store),
    ensures
        !apply_request(store, PersistenceRequest::Clear(slot)).contains_key(slot),
        apply_request(
            apply_request(store, PersistenceRequest::Clear(slot)),
            PersistenceRequest::Clear(slot),
        ) == apply_request(store, PersistenceRequest::Clear(slot)),
        slot < BONDED_DEVICE_NUM ==> begin_result(None, PersistenceRequest::Clear(slot)) == Ok::<
            StorageOp,
            BeginError,
        >(StorageOp::Remove(slot)),
{
    let once = apply_request(store, PersistenceRequest::Clear(slot));
    assert(apply_request(once, PersistenceRequest::Clear(slot)) =~= once);
}

/// Of two records saved under one slot, one after the other, the second
/// is the one that is stored, and the store is as if the first had never
/// been saved.
pub proof fn law_last_write_wins(store: Map<u8, BondRecord>, first: BondRecord, second: BondRecord)
    requires
        first.slot_num == second.slot_num,
        second.slot_num < BONDED_DEVICE_NUM,
    ensures
        apply_request(
            apply_request(store, PersistenceRequest::Save(first)),
            PersistenceRequest::Save(second),
        ).contains_key(second.slot_num),
        apply_request(
            apply_request(store, PersistenceRequest::Save(first)),
            PersistenceRequest::Save(second),
        )[second.slot_num] == second,
        apply_request(
            apply_request(store, PersistenceRequest::Save(first)),
            PersistenceRequest::Save(second),
        ) == apply_request(store, PersistenceRequest::Save(second)),
{
    let once = apply_request(store, PersistenceRequest::Save(first));
    assert(apply_request(once, PersistenceRequest::Save(second)) =~= apply_request(
        store,
        PersistenceRequest::Save(second),
    ));
}

/// A request for a slot that the store does not have is turned away by the
/// writer, whatever the writer is doing, and leaves the store as it is. A
/// store that holds records under its slots only, each under its own, stays
/// so under every request.
pub proof fn law_slot_bound(
    store: Map<u8, BondRecord>,
    in_flight: Option<StorageOp>,
    request: PersistenceRequest,
)
    ensures
        request.slot() >= BONDED_DEVICE_NUM ==> {
            &&& begin_result(in_flight, request) == Err::<StorageOp, BeginError>(
                BeginError::SlotOutOfRange,
            )
            &&& after_begin(in_flight, request) == in_flight
            &&& apply_request(store, request) == store
        },
        store_well_formed(store) ==> store_well_formed(apply_request(store, request)),
{
}

/// A store that holds records under its slots only, each under its own,
/// stays so under every run of requests.
pub proof fn law_store_stays_well_formed(
    store: Map<u8, BondRecord>,
    requests: Seq<PersistenceRequest>,
)
    requires
        store_well_formed(store),
    ensures
        store_well_formed(apply_all(store, requests)),
    decreases requests.len(),
{
    if requests.len() > 0 {
        law_slot_bound(store, None, requests.first());
        law_store_stays_well_formed(apply_request(store, requests.first()), requests.drop_first());
    }
}

/// Whatever calls reach the writer, and in whatever order, the store has
/// at most one operation to answer at any time: the writer asks for an
/// operation only when every operation before it has been answered.
pub proof fn law_single_writer(calls: Seq<CoordinatorCall>)
    ensures
        answered(calls) <= issued(calls) <= answered(calls) + 1,
        issued(calls) == answered(calls) + 1 <==> in_flight_after(calls) is Some,
    decreases calls.len(),
{
    if calls.len() > 0 {
        law_single_writer(calls.drop_last());
    }
}

} // verus!
