//! The launch recorder's entry points: record a launch (write the record and
//! publish the matching event, atomically) and the placeholder token-creation
//! operation.

use vstd::prelude::*;

use crate::launch::{event_of, Identity, LaunchRecord, PepelabError, TokenLaunched};
use crate::store::{EventLog, RecordStore};

verus! {

/// The capabilities a caller supplies to record a launch: a fresh,
/// caller-chosen storage slot for the record, and the authenticated identity
/// of the wallet launching the token (the signer, who also funds the slot).
pub struct RecordLaunch {
    /// The storage slot the record is to be written into; choosing it, and
    /// not colliding with an existing record, is the caller's responsibility.
    pub record_slot: u64,
    /// The authenticated wallet launching the token.
    pub launcher: Identity,
}

/// The capability a caller supplies to the placeholder token-creation
/// operation: the authenticated identity of the creating wallet.
pub struct CreateToken {
    /// The authenticated wallet creating the token.
    pub creator: Identity,
}

/// Relies on anchor_lang's clock sysvar (`Sysvar::get` on `Clock`): on
/// success the result is the cluster's current Unix timestamp; when the
/// execution environment offers no clock sysvar, the call reports an error
/// and returns no timestamp. Nothing is assumed about the value read.
#[verifier::external_body]
fn read_unix_timestamp() -> (r: Result<i64, PepelabError>)
    ensures
        r matches Err(e) ==> e == PepelabError::TimestampError,
{
    match <anchor_lang::prelude::Clock as anchor_lang::prelude::SolanaSysvar>::get() {
        Ok(clock) => Ok(clock.unix_timestamp),
        Err(_) => Err(PepelabError::TimestampError),
    }
}

/// Record a token launch as of the given clock reading.
///
/// If the target slot is fresh, this writes exactly one record — launcher
/// and mint taken verbatim from the caller, timestamp taken from `now` —
/// and publishes exactly one event mirroring it, atomically. If the slot is
/// already occupied, it fails with `AllocationError` and changes nothing.
pub fn record_launch_at(
    store: &mut RecordStore,
    log: &mut EventLog,
    ctx: &RecordLaunch,
    mint: Identity,
    now: i64,
) -> (r: Result<LaunchRecord, PepelabError>)
    requires
        old(store).wf(),
    ensures
        final(store).wf(),
        old(store).contents().contains_key(ctx.record_slot) ==> r == Err::<
            LaunchRecord,
            PepelabError,
        >(PepelabError::AllocationError) && *final(store) == *old(store) && *final(log)
            == *old(log),
        !old(store).contents().contains_key(ctx.record_slot) ==> (r matches Ok(rec)
            && rec == (LaunchRecord { launcher: ctx.launcher, mint, timestamp: now })
            && final(store).contents() == old(store).contents().insert(ctx.record_slot, rec)
            && final(log).entries() == old(log).entries().push(event_of(rec))),
{
    let rec = LaunchRecord { launcher: ctx.launcher, mint, timestamp: now };
    match store.write_record(ctx.record_slot, rec) {
        Ok(()) => {
            log.emit(
                TokenLaunched {
                    launcher: rec.launcher,
                    mint: rec.mint,
                    timestamp: rec.timestamp,
                },
            );
            Ok(rec)
        },
        Err(e) => Err(e),
    }
}

/// Record a token launch, reading the timestamp from the trusted clock.
///
/// An occupied slot fails with `AllocationError`; an unavailable clock fails
/// with `TimestampError`; on a fresh slot with a readable clock the launch
/// succeeds and behaves as `record_launch_at` with the clock's reading.
/// Every failure leaves both the store and the log unchanged.
pub fn record_launch(
    store: &mut RecordStore,
    log: &mut EventLog,
    ctx: &RecordLaunch,
    mint: Identity,
) -> (r: Result<LaunchRecord, PepelabError>)
    requires
        old(store).wf(),
    ensures
        final(store).wf(),
        old(store).contents().contains_key(ctx.record_slot) ==> r == Err::<
            LaunchRecord,
            PepelabError,
        >(PepelabError::AllocationError) && *final(store) == *old(store) && *final(log)
            == *old(log),
        !old(store).contents().contains_key(ctx.record_slot) ==> match r {
            Ok(rec) => rec.launcher == ctx.launcher && rec.mint == mint
                && final(store).contents() == old(store).contents().insert(ctx.record_slot, rec)
                && final(log).entries() == old(log).entries().push(event_of(rec)),
            Err(e) => e == PepelabError::TimestampError && *final(store) == *old(store)
                && *final(log) == *old(log),
        },
{
    if store.is_occupied(ctx.record_slot) {
        return Err(PepelabError::AllocationError);
    }
    let now = match read_unix_timestamp() {
        Ok(t) => t,
        Err(e) => {
            return Err(e);
        },
    };
    record_launch_at(store, log, ctx, mint, now)
}

/// The placeholder token-creation operation.
///
/// It accepts a token name, symbol, decimal count and supply, and does
/// nothing: it never mutates the store, never publishes an event, and
/// succeeds for every input.
pub fn create_token(
    store: &mut RecordStore,
    log: &mut EventLog,
    _ctx: &CreateToken,
    _name: String,
    _symbol: String,
    _decimals: u8,
    _supply: u64,
) -> (r: Result<(), PepelabError>)
    ensures
        r == Ok::<(), PepelabError>(()),
        *final(store) == *old(store),
        *final(log) == *old(log),
{
    Ok(())
}

/// A record is write-once: a successful launch makes its slot occupied, and
/// the launch operations refuse an occupied slot with `AllocationError`, so
/// a second launch into the same slot must fail — no silent overwrite.
pub proof fn lemma_record_is_write_once(
    contents: Map<u64, LaunchRecord>,
    slot: u64,
    rec: LaunchRecord,
)
    ensures
        contents.insert(slot, rec).contains_key(slot),
{
}

/// Launches into distinct slots are independent: recording into a fresh slot
/// keeps every other fresh slot fresh, and after two launches into distinct
/// fresh slots both records are stored intact, whatever their launchers and
/// mints.
pub proof fn lemma_distinct_slots_independent(
    contents: Map<u64, LaunchRecord>,
    first_slot: u64,
    second_slot: u64,
    first: LaunchRecord,
    second: LaunchRecord,
)
    requires
        first_slot != second_slot,
        !contents.contains_key(second_slot),
    ensures
        !contents.insert(first_slot, first).contains_key(second_slot),
        contents.insert(first_slot, first).insert(second_slot, second)[first_slot] == first,
        contents.insert(first_slot, first).insert(second_slot, second)[second_slot] == second,
{
}

/// A stored timestamp is exactly the clock reading of its call, so two
/// successful launches whose clock readings were in order carry timestamps
/// in the same order: under a correctly functioning (non-decreasing) clock,
/// stored timestamps are monotonically non-decreasing.
pub proof fn lemma_timestamps_non_decreasing(
    first: LaunchRecord,
    second: LaunchRecord,
    first_read: i64,
    second_read: i64,
)
    requires
        first.timestamp == first_read,
        second.timestamp == second_read,
        first_read <= second_read,
    ensures
        first.timestamp <= second.timestamp,
{
}

/// The event published for a launch mirrors the record written: identical
/// launcher, mint and timestamp, field for field.
pub proof fn lemma_event_mirrors_record(rec: LaunchRecord)
    ensures
        event_of(rec).launcher == rec.launcher,
        event_of(rec).mint == rec.mint,
        event_of(rec).timestamp == rec.timestamp,
{
}

} // verus!
