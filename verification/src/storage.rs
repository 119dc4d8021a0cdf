//! The flash region that holds the bond records, and the operations that
//! are asked of the record store in it.

use vstd::prelude::*;
use crate::bond::{BondRecord, BONDED_DEVICE_NUM};

verus! {

/// Size of the unit in which the flash is erased, in bytes.
pub const ERASE_UNIT: u32 = 0x1000;

/// Size of the region that holds the bond records, in bytes.
pub const REGION_SIZE: u32 = 0x2000;

/// Size of the buffer in which a record is laid out on its way to or from
/// the flash, in bytes. The one writer keeps one such buffer for all its
/// operations.
pub const SCRATCH_BUFFER_LEN: usize = 128;

/// The chips that the controller runs on.
#[derive(Clone, Copy, Debug, PartialEq, Eq, Structural)]
pub enum Target {
    Nrf52840,
    Nrf52832,
}

/// The flash address range kept for the bond records, from `start` up to,
/// not including, `end`.
#[derive(Clone, Copy, Debug, PartialEq, Eq)]
pub struct StorageRegion {
    start: u32,
    end: u32,
}

impl StorageRegion {
    /// A region begins and ends on an erase unit and has the one size.
    #[verifier::type_invariant]
    spec fn well_formed(self) -> bool {
        &&& self.start % ERASE_UNIT == 0
        &&& self.end == self.start + REGION_SIZE
    }

    /// Where the region of a chip begins.
    pub open spec fn base_of(target: Target) -> u32 {
        match target {
            Target::Nrf52840 => 0x8_0000,
            Target::Nrf52832 => 0x7_E000,
        }
    }

    /// First address of the region.
    pub closed spec fn start_spec(self) -> u32 {
        self.start
    }

    /// First address after the region.
    pub closed spec fn end_spec(self) -> u32 {
        self.end
    }

    /// The region of a chip. It is looked up once, when the controller
    /// starts, and handed to the one writer.
    pub fn for_target(target: Target) -> (region: Self)
        ensures
            region.start_spec() == Self::base_of(target),
            region.end_spec() == Self::base_of(target) + REGION_SIZE,
    {
        match target {
            Target::Nrf52840 => StorageRegion { start: 0x8_0000, end: 0x8_2000 },
            Target::Nrf52832 => StorageRegion { start: 0x7_E000, end: 0x8_0000 },
        }
    }

    /// First address of the region: a multiple of the erase unit.
    #[verifier::when_used_as_spec(start_spec)]
    pub fn start(self) -> (addr: u32)
        ensures
            addr == self.start_spec(),
            addr % ERASE_UNIT == 0,
    {
        proof {
            use_type_invariant(self);
        }
        self.start
    }

    /// First address after the region: a multiple of the erase unit, two
    /// units after the first address.
    #[verifier::when_used_as_spec(end_spec)]
    pub fn end(self) -> (addr: u32)
        ensures
            addr == self.end_spec(),
            addr % ERASE_UNIT == 0,
            addr == self.start_spec() + REGION_SIZE,
    {
        proof {
            use_type_invariant(self);
        }
        self.end
    }

    /// Whether an address lies in the region.
    pub fn contains(self, addr: u32) -> (inside: bool)
        ensures
            inside == (self.start_spec() <= addr < self.end_spec()),
    {
        self.start <= addr && addr < self.end
    }
}

/// What the record store is asked to do.
#[derive(Clone, Copy, Debug, PartialEq, Eq, Structural)]
pub enum StorageOp {
    /// Remove whatever is stored under a key.
    Remove(u8),
    /// Store a record under its slot, over whatever is stored there.
    Store(BondRecord),
}

impl StorageOp {
    /// The key that the operation touches.
    pub open spec fn key_spec(self) -> u8 {
        match self {
            StorageOp::Remove(key) => key,
            StorageOp::Store(record) => record.slot_num,
        }
    }

    /// What a store holds once the operation has succeeded on it.
    pub open spec fn effect(self, store: Map<u8, BondRecord>) -> Map<u8, BondRecord> {
        match self {
            StorageOp::Remove(key) => store.remove(key),
            StorageOp::Store(record) => store.insert(record.slot_num, record),
        }
    }

    /// The key that the operation touches.
    #[verifier::when_used_as_spec(key_spec)]
    pub fn key(self) -> (key: u8)
        ensures
            key == self.key_spec(),
    {
        match self {
            StorageOp::Remove(key) => key,
            StorageOp::Store(record) => record.slot_num,
        }
    }
}

/// Whether a store holds records under slots only, each under its own.
pub open spec fn store_well_formed(store: Map<u8, BondRecord>) -> bool {
    forall|key: u8| #[trigger]
        store.contains_key(key) ==> key < BONDED_DEVICE_NUM && store[key].slot_num == key
}

} // verus!
