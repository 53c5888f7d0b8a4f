use pepelab::launch::{Identity, LaunchRecord, PepelabError, TokenLaunched};
use pepelab::recorder::{create_token, record_launch, record_launch_at, CreateToken, RecordLaunch};
use pepelab::store::{EventLog, RecordStore};

fn id(tag: u8) -> Identity {
    Identity { bytes: [tag; 32] }
}

#[test]
fn one_launch_one_record_one_event() {
    let mut store = RecordStore::new();
    let mut log = EventLog::new();
    let launcher = id(1);
    let mint = id(2);
    let ctx = RecordLaunch { record_slot: 5, launcher };
    let rec = record_launch_at(&mut store, &mut log, &ctx, mint, 1_700_000_000).unwrap();
    assert_eq!(rec.launcher, launcher);
    assert_eq!(rec.mint, mint);
    assert_eq!(rec.timestamp, 1_700_000_000);
    assert_eq!(store.count(), 1);
    assert_eq!(store.record_at(5), Some(rec));
    assert_eq!(log.len(), 1);
    assert_eq!(
        log.event_at(0),
        Some(TokenLaunched { launcher, mint, timestamp: 1_700_000_000 })
    );
}

#[test]
fn same_slot_twice_fails_with_allocation_error() {
    let mut store = RecordStore::new();
    let mut log = EventLog::new();
    let ctx = RecordLaunch { record_slot: 9, launcher: id(3) };
    let first = record_launch_at(&mut store, &mut log, &ctx, id(4), 10).unwrap();
    let second = record_launch_at(&mut store, &mut log, &ctx, id(4), 20);
    assert_eq!(second, Err(PepelabError::AllocationError));
    // no silent overwrite, no second event
    assert_eq!(store.record_at(9), Some(first));
    assert_eq!(store.count(), 1);
    assert_eq!(log.len(), 1);
}

#[test]
fn distinct_slots_same_mint_different_launchers_both_succeed() {
    let mut store = RecordStore::new();
    let mut log = EventLog::new();
    let mint = id(7);
    let ctx_a = RecordLaunch { record_slot: 1, launcher: id(10) };
    let ctx_b = RecordLaunch { record_slot: 2, launcher: id(11) };
    let rec_a = record_launch_at(&mut store, &mut log, &ctx_a, mint, 100).unwrap();
    let rec_b = record_launch_at(&mut store, &mut log, &ctx_b, mint, 200).unwrap();
    assert_eq!(store.count(), 2);
    assert_eq!(store.record_at(1), Some(rec_a));
    assert_eq!(store.record_at(2), Some(rec_b));
    assert_eq!(rec_a.launcher, id(10));
    assert_eq!(rec_b.launcher, id(11));
    assert_eq!(rec_a.mint, mint);
    assert_eq!(rec_b.mint, mint);
}

#[test]
fn timestamps_non_decreasing_under_ordered_clock() {
    let mut store = RecordStore::new();
    let mut log = EventLog::new();
    let readings: [i64; 4] = [50, 50, 51, 90];
    let mut previous: Option<i64> = None;
    for (slot, reading) in readings.iter().enumerate() {
        let ctx = RecordLaunch { record_slot: slot as u64, launcher: id(1) };
        let rec = record_launch_at(&mut store, &mut log, &ctx, id(2), *reading).unwrap();
        if let Some(p) = previous {
            assert!(p <= rec.timestamp);
        }
        previous = Some(rec.timestamp);
    }
}

#[test]
fn create_token_never_mutates_and_never_emits() {
    let mut store = RecordStore::new();
    let mut log = EventLog::new();
    let ctx = RecordLaunch { record_slot: 3, launcher: id(1) };
    record_launch_at(&mut store, &mut log, &ctx, id(2), 42).unwrap();
    let creator = CreateToken { creator: id(9) };
    let r = create_token(
        &mut store,
        &mut log,
        &creator,
        String::from("Pepe Token"),
        String::from("PEPE"),
        9,
        1_000_000,
    );
    assert_eq!(r, Ok(()));
    // empty strings, zero decimals, zero supply succeed too
    let r2 = create_token(&mut store, &mut log, &creator, String::new(), String::new(), 0, 0);
    assert_eq!(r2, Ok(()));
    // storage and the event log are untouched
    assert_eq!(store.count(), 1);
    assert_eq!(store.record_at(3).map(|rec| rec.timestamp), Some(42));
    assert_eq!(log.len(), 1);
}

#[test]
fn scenario_fresh_slot_then_collision_then_new_slot() {
    let mut store = RecordStore::new();
    let mut log = EventLog::new();
    let launcher = id(21);
    let mint = id(22);

    // fresh slot: the launch succeeds and the event mirrors the record
    let ctx = RecordLaunch { record_slot: 100, launcher };
    let rec = record_launch_at(&mut store, &mut log, &ctx, mint, 777).unwrap();
    assert_eq!(rec, LaunchRecord { launcher, mint, timestamp: 777 });
    assert_eq!(store.record_at(100), Some(rec));
    assert_eq!(
        log.event_at(0),
        Some(TokenLaunched { launcher, mint, timestamp: 777 })
    );

    // same slot again: AllocationError
    let again = record_launch_at(&mut store, &mut log, &ctx, mint, 778);
    assert_eq!(again, Err(PepelabError::AllocationError));

    // same launcher and mint, new slot: a second, independent record
    let ctx2 = RecordLaunch { record_slot: 101, launcher };
    let rec2 = record_launch_at(&mut store, &mut log, &ctx2, mint, 779).unwrap();
    assert_eq!(store.count(), 2);
    assert_eq!(store.record_at(100), Some(rec));
    assert_eq!(store.record_at(101), Some(rec2));
    assert_eq!(log.len(), 2);
}

#[test]
fn record_launch_without_a_clock_fails_with_timestamp_error() {
    // Outside a chain runtime the clock sysvar is unavailable, so the
    // clock-reading entry point reports TimestampError and changes nothing.
    let mut store = RecordStore::new();
    let mut log = EventLog::new();
    let ctx = RecordLaunch { record_slot: 0, launcher: id(1) };
    let r = record_launch(&mut store, &mut log, &ctx, id(2));
    assert_eq!(r, Err(PepelabError::TimestampError));
    assert_eq!(store.count(), 0);
    assert_eq!(log.len(), 0);
}

#[test]
fn record_launch_collision_checked_before_clock() {
    // An occupied slot fails with AllocationError even where the clock is
    // unavailable: allocation is resolved first.
    let mut store = RecordStore::new();
    let mut log = EventLog::new();
    let ctx = RecordLaunch { record_slot: 4, launcher: id(1) };
    record_launch_at(&mut store, &mut log, &ctx, id(2), 1).unwrap();
    let r = record_launch(&mut store, &mut log, &ctx, id(2));
    assert_eq!(r, Err(PepelabError::AllocationError));
}

#[test]
fn error_messages_name_each_condition() {
    assert_eq!(PepelabError::InvalidMint.message(), "Invalid mint address provided");
    assert_eq!(PepelabError::InvalidLauncher.message(), "Invalid launcher address");
    assert_eq!(PepelabError::TimestampError.message(), "Timestamp error");
    assert_eq!(
        PepelabError::AllocationError.message(),
        "Storage slot could not be allocated"
    );
}

#[test]
fn events_keep_their_order() {
    let mut store = RecordStore::new();
    let mut log = EventLog::new();
    for slot in 0u64..3 {
        let ctx = RecordLaunch { record_slot: slot, launcher: id(slot as u8) };
        record_launch_at(&mut store, &mut log, &ctx, id(99), slot as i64).unwrap();
    }
    assert_eq!(log.len(), 3);
    for i in 0usize..3 {
        let event = log.event_at(i).unwrap();
        assert_eq!(event.launcher, id(i as u8));
        assert_eq!(event.timestamp, i as i64);
    }
    assert_eq!(log.event_at(3), None);
}

#[test]
fn record_payload_size_is_72_bytes() {
    assert_eq!(LaunchRecord::SIZE, 72);
}
