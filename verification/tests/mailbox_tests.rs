use rmk_ble::bond::{BondRecord, PersistenceRequest, BONDED_DEVICE_NUM};
use rmk_ble::mailbox::{BondingMailbox, SendError};

fn record(slot_num: u8, tag: u64) -> BondRecord {
    BondRecord { slot_num, peer_id: tag, link_key: u128::from(tag) << 64 | 0xA5 }
}

#[test]
fn new_mailbox_is_empty() {
    let mut mailbox = BondingMailbox::<4>::new();
    assert_eq!(mailbox.len(), 0);
    assert_eq!(mailbox.capacity(), 4);
    assert!(mailbox.is_empty());
    assert!(!mailbox.is_full());
    assert_eq!(mailbox.try_receive(), None);
}

#[test]
fn requests_leave_in_the_order_of_sending() {
    let mut mailbox = BondingMailbox::<4>::new();
    let first = PersistenceRequest::Save(record(1, 10));
    let second = PersistenceRequest::Clear(1);
    let third = PersistenceRequest::Save(record(7, 30));
    assert_eq!(mailbox.try_send(first), Ok(()));
    assert_eq!(mailbox.try_send(second), Ok(()));
    assert_eq!(mailbox.try_send(third), Ok(()));
    assert_eq!(mailbox.len(), 3);
    assert_eq!(mailbox.try_receive(), Some(first));
    assert_eq!(mailbox.try_receive(), Some(second));
    assert_eq!(mailbox.try_receive(), Some(third));
    assert_eq!(mailbox.try_receive(), None);
    assert!(mailbox.is_empty());
}

#[test]
fn full_mailbox_turns_the_request_away() {
    let mut mailbox = BondingMailbox::<2>::new();
    assert_eq!(mailbox.try_send(PersistenceRequest::Clear(0)), Ok(()));
    assert_eq!(mailbox.try_send(PersistenceRequest::Clear(1)), Ok(()));
    assert!(mailbox.is_full());
    assert_eq!(mailbox.try_send(PersistenceRequest::Clear(2)), Err(SendError::Full));
    assert_eq!(mailbox.len(), 2);
    assert_eq!(mailbox.try_receive(), Some(PersistenceRequest::Clear(0)));
    assert_eq!(mailbox.try_send(PersistenceRequest::Clear(2)), Ok(()));
    assert_eq!(mailbox.try_receive(), Some(PersistenceRequest::Clear(1)));
    assert_eq!(mailbox.try_receive(), Some(PersistenceRequest::Clear(2)));
}

#[test]
fn mailbox_without_room_is_always_full() {
    let mut mailbox = BondingMailbox::<0>::new();
    assert!(mailbox.is_empty());
    assert!(mailbox.is_full());
    assert_eq!(mailbox.try_send(PersistenceRequest::Clear(0)), Err(SendError::Full));
    assert_eq!(mailbox.try_receive(), None);
}

#[test]
fn slot_past_the_last_is_turned_away_at_the_door() {
    let mut mailbox = BondingMailbox::<2>::new();
    assert_eq!(mailbox.try_send(PersistenceRequest::Clear(8)), Err(SendError::SlotOutOfRange));
    assert_eq!(
        mailbox.try_send(PersistenceRequest::Save(record(8, 1))),
        Err(SendError::SlotOutOfRange)
    );
    assert_eq!(mailbox.try_send(PersistenceRequest::Clear(255)), Err(SendError::SlotOutOfRange));
    assert!(mailbox.is_empty());
    assert_eq!(mailbox.try_send(PersistenceRequest::Clear(7)), Ok(()));
    assert_eq!(mailbox.len(), 1);
}

#[test]
fn slot_is_looked_at_before_the_room() {
    let mut mailbox = BondingMailbox::<1>::new();
    assert_eq!(mailbox.try_send(PersistenceRequest::Clear(0)), Ok(()));
    assert_eq!(mailbox.try_send(PersistenceRequest::Clear(9)), Err(SendError::SlotOutOfRange));
    assert_eq!(mailbox.try_send(PersistenceRequest::Clear(1)), Err(SendError::Full));
}

#[test]
fn ring_wraps_round_its_end() {
    let mut mailbox = BondingMailbox::<3>::new();
    let mut sent: u64 = 0;
    let mut received: u64 = 0;
    for round in 0..20u64 {
        let burst = 1 + round % 3;
        for _ in 0..burst {
            let request = PersistenceRequest::Save(record((sent % 8) as u8, sent));
            if mailbox.try_send(request).is_ok() {
                sent += 1;
            }
        }
        let take = 1 + (round + 1) % 3;
        for _ in 0..take {
            if let Some(request) = mailbox.try_receive() {
                assert_eq!(request, PersistenceRequest::Save(record((received % 8) as u8, received)));
                received += 1;
            }
        }
        assert_eq!(mailbox.len() as u64, sent - received);
    }
    while let Some(request) = mailbox.try_receive() {
        assert_eq!(request, PersistenceRequest::Save(record((received % 8) as u8, received)));
        received += 1;
    }
    assert_eq!(sent, received);
    assert!(sent > 20);
}

#[test]
fn two_producers_keep_each_their_own_order() {
    let mut mailbox = BondingMailbox::<8>::new();
    let from_a = [record(0, 100), record(1, 101), record(2, 102)];
    let from_b = [record(0, 200), record(1, 201), record(2, 202)];
    let turns = [true, false, false, true, false, true];
    let (mut a, mut b) = (0, 0);
    for a_sends in turns {
        if a_sends {
            assert_eq!(mailbox.try_send(PersistenceRequest::Save(from_a[a])), Ok(()));
            a += 1;
        } else {
            assert_eq!(mailbox.try_send(PersistenceRequest::Save(from_b[b])), Ok(()));
            b += 1;
        }
    }
    let (mut a, mut b) = (0, 0);
    while let Some(PersistenceRequest::Save(got)) = mailbox.try_receive() {
        if got.peer_id < 200 {
            assert_eq!(got, from_a[a]);
            a += 1;
        } else {
            assert_eq!(got, from_b[b]);
            b += 1;
        }
    }
    assert_eq!((a, b), (3, 3));
}

#[test]
fn request_knows_its_slot() {
    assert_eq!(PersistenceRequest::Clear(3).slot(), 3);
    assert_eq!(PersistenceRequest::Save(record(5, 1)).slot(), 5);
    assert!(PersistenceRequest::Clear(7).in_range());
    assert!(!PersistenceRequest::Clear(8).in_range());
    assert!(!PersistenceRequest::Save(record(200, 1)).in_range());
    assert_eq!(BONDED_DEVICE_NUM, 8);
}
