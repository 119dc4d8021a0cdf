//! A table of bond records in memory, one cell for each slot.
//!
//! The table is the meaning of the record store in small: what is found
//! under each slot after a run of operations that all succeeded. It stands
//! in for the flash wherever there is none.

use vstd::prelude::*;
use crate::bond::{BondRecord, BONDED_DEVICE_NUM};
use crate::storage::{store_well_formed, StorageOp};

verus! {

/// The bond records by slot.
#[derive(Clone, Copy, Debug)]
pub struct BondTable {
    cells: [Option<BondRecord>; BONDED_DEVICE_NUM],
}

impl BondTable {
    /// The record in a cell carries the cell's slot.
    #[verifier::type_invariant]
    spec fn well_formed(self) -> bool {
        forall|k: int|
            0 <= k < BONDED_DEVICE_NUM ==> ((#[trigger] self.cells[k]) matches Some(record)
                ==> record.slot_num == k)
    }

    /// The records that the table holds, by slot.
    pub closed spec fn view(&self) -> Map<u8, BondRecord> {
        Map::new(
            |key: u8| key < BONDED_DEVICE_NUM && self.cells[key as int] is Some,
            |key: u8| self.cells[key as int]->0,
        )
    }

    /// A table without records.
    pub fn new() -> (table: Self)
        ensures
            table@ == Map::<u8, BondRecord>::empty(),
    {
        let table = BondTable { cells: [None; BONDED_DEVICE_NUM] };
        assert(table@ =~= Map::<u8, BondRecord>::empty());
        table
    }

    /// The record of a slot, if the table holds one. A slot past the last
    /// holds none.
    pub fn get(&self, slot: u8) -> (found: Option<BondRecord>)
        ensures
            found == (if self@.contains_key(slot) {
                Some(self@[slot])
            } else {
                None
            }),
            store_well_formed(self@),
    {
        proof {
            use_type_invariant(self);
        }
        if (slot as usize) < BONDED_DEVICE_NUM {
            self.cells[slot as usize]
        } else {
            None
        }
    }

    /// Does to the table what the operation asks of the store, if its key
    /// is a slot; else leaves the table as it is. Says which.
    pub fn apply(&mut self, op: StorageOp) -> (applied: bool)
        ensures
            applied == (op.key_spec() < BONDED_DEVICE_NUM),
            final(self)@ == (if applied {
                op.effect(old(self)@)
            } else {
                old(self)@
            }),
    {
        proof {
            use_type_invariant(&*self);
        }
        let key = op.key();
        if (key as usize) >= BONDED_DEVICE_NUM {
            return false;
        }
        let cell = match op {
            StorageOp::Remove(_) => None,
            StorageOp::Store(record) => Some(record),
        };
        self.cells[key as usize] = cell;
        assert(self@ =~= op.effect(old(self)@));
        true
    }
}

} // verus!
