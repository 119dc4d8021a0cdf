use rmk_ble::bond::{BondRecord, PersistenceRequest};
use rmk_ble::coordinator::{BeginError, FlashCoordinator, StorageOutcome};
use rmk_ble::mailbox::BondingMailbox;
use rmk_ble::storage::{
    StorageOp, StorageRegion, Target, ERASE_UNIT, REGION_SIZE, SCRATCH_BUFFER_LEN,
};
use rmk_ble::table::BondTable;

fn bond(slot_num: u8, tag: u64) -> BondRecord {
    BondRecord { slot_num, peer_id: tag, link_key: (u128::from(tag) << 32) + 7 }
}

fn writer() -> FlashCoordinator {
    FlashCoordinator::new(StorageRegion::for_target(Target::Nrf52840))
}

/// Serves the requests on a table one by one, without mailbox or writer.
fn served_directly(table: &mut BondTable, requests: &[PersistenceRequest]) {
    for request in requests {
        match *request {
            PersistenceRequest::Clear(slot) => table.apply(StorageOp::Remove(slot)),
            PersistenceRequest::Save(record) => table.apply(StorageOp::Store(record)),
        };
    }
}

fn same_records(one: &BondTable, other: &BondTable) -> bool {
    (0..=255u8).all(|slot| one.get(slot) == other.get(slot))
}

/// A step of a linear congruential generator.
fn next_random(state: &mut u64) -> u64 {
    *state = state.wrapping_mul(6_364_136_223_846_793_005).wrapping_add(1_442_695_040_888_963_407);
    *state >> 33
}

#[test]
fn regions_of_the_two_chips() {
    let big = StorageRegion::for_target(Target::Nrf52840);
    assert_eq!(big.start(), 0x80000);
    assert_eq!(big.end(), 0x82000);
    let small = StorageRegion::for_target(Target::Nrf52832);
    assert_eq!(small.start(), 0x7E000);
    assert_eq!(small.end(), 0x80000);
    for region in [big, small] {
        assert_eq!(region.start() % ERASE_UNIT, 0);
        assert_eq!(region.end() % ERASE_UNIT, 0);
        assert_eq!(region.end() - region.start(), REGION_SIZE);
        assert_eq!(REGION_SIZE, 8 * 1024);
        assert!(region.end() - region.start() >= 2 * ERASE_UNIT);
    }
    assert_eq!(SCRATCH_BUFFER_LEN, 128);
}

#[test]
fn region_holds_its_addresses_only() {
    let region = StorageRegion::for_target(Target::Nrf52832);
    assert!(region.contains(0x7E000));
    assert!(region.contains(0x7FFFF));
    assert!(!region.contains(0x80000));
    assert!(!region.contains(0x7DFFF));
    assert!(!region.contains(0));
    let other = StorageRegion::for_target(Target::Nrf52840);
    assert!(other.contains(0x80000));
    assert!(!other.contains(0x82000));
}

#[test]
fn new_writer_is_idle_in_its_region() {
    let region = StorageRegion::for_target(Target::Nrf52832);
    let coordinator = FlashCoordinator::new(region);
    assert_eq!(coordinator.region(), region);
    assert_eq!(coordinator.in_flight(), None);
}

#[test]
fn clear_is_served_by_a_removal() {
    let mut coordinator = writer();
    assert_eq!(coordinator.begin(PersistenceRequest::Clear(3)), Ok(StorageOp::Remove(3)));
    assert_eq!(coordinator.in_flight(), Some(StorageOp::Remove(3)));
    assert_eq!(StorageOp::Remove(3).key(), 3);
}

#[test]
fn save_is_served_by_a_store_under_the_records_slot() {
    let mut coordinator = writer();
    let record = bond(6, 42);
    assert_eq!(coordinator.begin(PersistenceRequest::Save(record)), Ok(StorageOp::Store(record)));
    assert_eq!(coordinator.in_flight(), Some(StorageOp::Store(record)));
    assert_eq!(StorageOp::Store(record).key(), 6);
}

#[test]
fn writer_takes_no_request_while_the_store_works() {
    let mut coordinator = writer();
    let region = coordinator.region();
    assert_eq!(coordinator.begin(PersistenceRequest::Clear(1)), Ok(StorageOp::Remove(1)));
    assert_eq!(coordinator.begin(PersistenceRequest::Clear(2)), Err(BeginError::Busy));
    assert_eq!(coordinator.begin(PersistenceRequest::Save(bond(2, 1))), Err(BeginError::Busy));
    assert_eq!(coordinator.in_flight(), Some(StorageOp::Remove(1)));
    coordinator.complete(StorageOutcome::Done);
    assert_eq!(coordinator.in_flight(), None);
    assert_eq!(coordinator.begin(PersistenceRequest::Clear(2)), Ok(StorageOp::Remove(2)));
    assert_eq!(coordinator.region(), region);
}

#[test]
fn writer_turns_away_a_slot_past_the_last() {
    let mut coordinator = writer();
    assert_eq!(coordinator.begin(PersistenceRequest::Clear(8)), Err(BeginError::SlotOutOfRange));
    assert_eq!(
        coordinator.begin(PersistenceRequest::Save(bond(9, 1))),
        Err(BeginError::SlotOutOfRange)
    );
    assert_eq!(coordinator.in_flight(), None);
    assert_eq!(coordinator.begin(PersistenceRequest::Clear(7)), Ok(StorageOp::Remove(7)));
    assert_eq!(coordinator.begin(PersistenceRequest::Clear(8)), Err(BeginError::SlotOutOfRange));
    assert_eq!(coordinator.in_flight(), Some(StorageOp::Remove(7)));
}

#[test]
fn failed_storage_does_not_stop_the_writer() {
    let mut coordinator = writer();
    let mut issued = Vec::new();
    for slot in 0..8u8 {
        let op = coordinator.begin(PersistenceRequest::Save(bond(slot, 1)));
        assert!(op.is_ok());
        issued.push(op);
        coordinator.complete(if slot % 2 == 0 { StorageOutcome::Failed } else { StorageOutcome::Done });
        assert_eq!(coordinator.in_flight(), None);
    }
    assert_eq!(issued.len(), 8);
}

#[test]
fn completing_with_nothing_under_way_changes_nothing() {
    let mut coordinator = writer();
    let region = coordinator.region();
    coordinator.complete(StorageOutcome::Done);
    coordinator.complete(StorageOutcome::Failed);
    assert_eq!(coordinator.in_flight(), None);
    assert_eq!(coordinator.region(), region);
}

#[test]
fn new_table_holds_nothing() {
    let table = BondTable::new();
    for slot in 0..=255u8 {
        assert_eq!(table.get(slot), None);
    }
}

#[test]
fn table_stores_and_removes() {
    let mut table = BondTable::new();
    assert!(table.apply(StorageOp::Store(bond(2, 5))));
    assert!(table.apply(StorageOp::Store(bond(7, 6))));
    assert_eq!(table.get(2), Some(bond(2, 5)));
    assert_eq!(table.get(7), Some(bond(7, 6)));
    assert_eq!(table.get(0), None);
    assert!(table.apply(StorageOp::Remove(2)));
    assert_eq!(table.get(2), None);
    assert_eq!(table.get(7), Some(bond(7, 6)));
}

#[test]
fn table_leaves_out_what_is_no_slot() {
    let mut table = BondTable::new();
    assert!(table.apply(StorageOp::Store(bond(0, 1))));
    assert!(!table.apply(StorageOp::Store(bond(8, 2))));
    assert!(!table.apply(StorageOp::Remove(8)));
    assert!(!table.apply(StorageOp::Remove(255)));
    assert_eq!(table.get(8), None);
    assert_eq!(table.get(0), Some(bond(0, 1)));
}

#[test]
fn table_holds_all_eight_slots() {
    let mut table = BondTable::new();
    for slot in 0..8u8 {
        assert!(table.apply(StorageOp::Store(bond(slot, 100 + u64::from(slot)))));
    }
    for slot in 0..8u8 {
        assert_eq!(table.get(slot), Some(bond(slot, 100 + u64::from(slot))));
    }
}

#[test]
fn clear_twice_is_clear_once() {
    let mut coordinator = writer();
    let mut table = BondTable::new();
    table.apply(StorageOp::Store(bond(4, 9)));
    table.apply(StorageOp::Store(bond(5, 9)));
    for _ in 0..2 {
        let op = coordinator.begin(PersistenceRequest::Clear(4));
        assert_eq!(op, Ok(StorageOp::Remove(4)));
        assert!(table.apply(StorageOp::Remove(4)));
        coordinator.complete(StorageOutcome::Done);
        assert_eq!(table.get(4), None);
        assert_eq!(table.get(5), Some(bond(5, 9)));
    }
}

#[test]
fn clear_of_an_empty_slot_is_no_error() {
    let mut mailbox = BondingMailbox::<2>::new();
    let mut coordinator = writer();
    let mut table = BondTable::new();
    assert_eq!(mailbox.try_send(PersistenceRequest::Clear(0)), Ok(()));
    assert_eq!(mailbox.try_send(PersistenceRequest::Clear(0)), Ok(()));
    assert_eq!(coordinator.drain_into(&mut mailbox, &mut table), 2);
    assert_eq!(table.get(0), None);
    assert!(same_records(&table, &BondTable::new()));
}

#[test]
fn last_save_wins() {
    let mut mailbox = BondingMailbox::<4>::new();
    let mut coordinator = writer();
    let mut table = BondTable::new();
    let first = bond(3, 1);
    let second = bond(3, 2);
    assert_eq!(mailbox.try_send(PersistenceRequest::Save(first)), Ok(()));
    assert_eq!(mailbox.try_send(PersistenceRequest::Save(second)), Ok(()));
    assert_eq!(coordinator.drain_into(&mut mailbox, &mut table), 2);
    assert_eq!(table.get(3), Some(second));
    let mut only_second = BondTable::new();
    only_second.apply(StorageOp::Store(second));
    assert!(same_records(&table, &only_second));
}

#[test]
fn drain_serves_as_direct_application_does() {
    let requests = [
        PersistenceRequest::Save(bond(0, 1)),
        PersistenceRequest::Save(bond(1, 2)),
        PersistenceRequest::Clear(0),
        PersistenceRequest::Save(bond(1, 3)),
        PersistenceRequest::Clear(5),
        PersistenceRequest::Save(bond(7, 4)),
        PersistenceRequest::Save(bond(0, 5)),
    ];
    let mut mailbox = BondingMailbox::<8>::new();
    for request in requests {
        assert_eq!(mailbox.try_send(request), Ok(()));
    }
    let mut coordinator = writer();
    let mut through_mailbox = BondTable::new();
    assert_eq!(coordinator.drain_into(&mut mailbox, &mut through_mailbox), 7);
    assert!(mailbox.is_empty());
    assert_eq!(coordinator.in_flight(), None);

    let mut direct = BondTable::new();
    served_directly(&mut direct, &requests);
    assert!(same_records(&through_mailbox, &direct));
    assert_eq!(through_mailbox.get(0), Some(bond(0, 5)));
    assert_eq!(through_mailbox.get(1), Some(bond(1, 3)));
    assert_eq!(through_mailbox.get(5), None);
    assert_eq!(through_mailbox.get(7), Some(bond(7, 4)));
}

#[test]
fn small_mailbox_with_turns_of_producer_and_writer() {
    let mut seed = 0x5EED_u64;
    let mut requests = Vec::new();
    for n in 0..200u64 {
        let slot = (next_random(&mut seed) % 8) as u8;
        if next_random(&mut seed) % 3 == 0 {
            requests.push(PersistenceRequest::Clear(slot));
        } else {
            requests.push(PersistenceRequest::Save(bond(slot, n)));
        }
    }
    let mut mailbox = BondingMailbox::<3>::new();
    let mut coordinator = writer();
    let mut table = BondTable::new();
    let mut sent = 0;
    while sent < requests.len() || !mailbox.is_empty() {
        if next_random(&mut seed) % 2 == 0 {
            if sent < requests.len() && mailbox.try_send(requests[sent]).is_ok() {
                sent += 1;
            }
        } else if let Some(request) = mailbox.try_receive() {
            let op = coordinator.begin(request).unwrap();
            assert!(table.apply(op));
            coordinator.complete(StorageOutcome::Done);
        }
    }
    let mut direct = BondTable::new();
    served_directly(&mut direct, &requests);
    assert!(same_records(&table, &direct));
}

#[test]
fn busy_writer_drains_nothing() {
    let mut mailbox = BondingMailbox::<4>::new();
    let mut coordinator = writer();
    let mut table = BondTable::new();
    assert_eq!(mailbox.try_send(PersistenceRequest::Save(bond(1, 1))), Ok(()));
    assert_eq!(coordinator.begin(PersistenceRequest::Clear(2)), Ok(StorageOp::Remove(2)));
    assert_eq!(coordinator.drain_into(&mut mailbox, &mut table), 0);
    assert_eq!(mailbox.len(), 1);
    assert_eq!(table.get(1), None);
    assert_eq!(coordinator.in_flight(), Some(StorageOp::Remove(2)));
    coordinator.complete(StorageOutcome::Failed);
    assert_eq!(coordinator.drain_into(&mut mailbox, &mut table), 1);
    assert_eq!(table.get(1), Some(bond(1, 1)));
}

#[test]
fn drain_of_an_empty_mailbox_serves_nothing() {
    let mut mailbox = BondingMailbox::<4>::new();
    let mut coordinator = writer();
    let mut table = BondTable::new();
    table.apply(StorageOp::Store(bond(6, 1)));
    assert_eq!(coordinator.drain_into(&mut mailbox, &mut table), 0);
    assert_eq!(table.get(6), Some(bond(6, 1)));
}

#[test]
fn store_never_sees_two_operations_at_once() {
    let mut seed = 0xB0D_u64;
    let mut mailbox = BondingMailbox::<4>::new();
    let mut coordinator = writer();
    let mut under_way = 0u32;
    let mut issued = 0u32;
    for n in 0..5_000u64 {
        match next_random(&mut seed) % 4 {
            0 | 1 => {
                let producer = next_random(&mut seed) % 3;
                let slot = (next_random(&mut seed) % 10) as u8;
                let _ = mailbox.try_send(PersistenceRequest::Save(bond(slot, producer * 10_000 + n)));
            }
            2 => {
                if coordinator.in_flight().is_none() {
                    if let Some(request) = mailbox.try_receive() {
                        if coordinator.begin(request).is_ok() {
                            under_way += 1;
                            issued += 1;
                        }
                    }
                } else {
                    let stray = PersistenceRequest::Clear((next_random(&mut seed) % 8) as u8);
                    assert_eq!(coordinator.begin(stray), Err(BeginError::Busy));
                }
            }
            _ => {
                if coordinator.in_flight().is_some() {
                    under_way -= 1;
                }
                coordinator.complete(StorageOutcome::Done);
            }
        }
        assert!(under_way <= 1);
        assert_eq!(under_way == 1, coordinator.in_flight().is_some());
    }
    assert!(issued > 100);
}
