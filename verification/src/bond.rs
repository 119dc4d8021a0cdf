//! Bond records and the requests that ask for their persistence.

use vstd::prelude::*;

verus! {

/// Maximum number of bonded devices, and so the number of slots.
pub const BONDED_DEVICE_NUM: usize = 8;

/// The credentials of one paired peer.
#[derive(Clone, Copy, Debug, PartialEq, Eq, Structural)]
pub struct BondRecord {
    /// Slot of the record: its key in the store.
    pub slot_num: u8,
    /// Identity of the peer: its address, with the address type above it.
    pub peer_id: u64,
    /// Key material that encrypts the link to the peer.
    pub link_key: u128,
}

/// A request to change what the store holds under one slot.
#[derive(Clone, Copy, Debug, PartialEq, Eq, Structural)]
pub enum PersistenceRequest {
    /// Forget the record of a slot.
    Clear(u8),
    /// Keep a record under its slot, in place of what was there.
    Save(BondRecord),
}

impl PersistenceRequest {
    /// The slot that the request is about.
    pub open spec fn slot_spec(self) -> u8 {
        match self {
            PersistenceRequest::Clear(slot) => slot,
            PersistenceRequest::Save(record) => record.slot_num,
        }
    }

    /// Whether the slot of the request is one of the store's slots.
    pub open spec fn in_range_spec(self) -> bool {
        self.slot_spec() < BONDED_DEVICE_NUM
    }

    /// The slot that the request is about.
    #[verifier::when_used_as_spec(slot_spec)]
    pub fn slot(self) -> (slot: u8)
        ensures
            slot == self.slot_spec(),
    {
        match self {
            PersistenceRequest::Clear(slot) => slot,
            PersistenceRequest::Save(record) => record.slot_num,
        }
    }

    /// Whether the slot of the request is one of the store's slots.
    #[verifier::when_used_as_spec(in_range_spec)]
    pub fn in_range(self) -> (ok: bool)
        ensures
            ok == self.in_range_spec(),
    {
        (self.slot() as usize) < BONDED_DEVICE_NUM
    }
}

} // verus!
