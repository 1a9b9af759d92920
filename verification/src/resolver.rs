//! Resolving the actual expiration ledger from a transaction's execution
//! metadata, with a fallback on a direct entry query when the metadata
//! records no state change.

use vstd::prelude::*;

verus! {

/// The failures the resolver itself decides. Transport, configuration and
/// key-parsing failures are the collaborators' own and pass through the
/// caller unchanged.
#[derive(Clone, Copy, Debug, PartialEq, Eq, Structural)]
pub enum Error {
    /// The post-submission metadata (or the fallback query) could not be
    /// mapped to a TTL update.
    LedgerEntryNotFound,
    /// The transport reported success but supplied no operation result.
    MissingOperationResult,
}

/// One recorded ledger-entry state change, reduced to what the resolver
/// reads of it: its kind, and for a TTL update the new expiration ledger.
#[derive(Clone, Copy, Debug, PartialEq, Eq, Structural)]
pub enum EntryChange {
    /// A prior-state record; its entry value is not consulted.
    State,
    /// An updated record whose entry data is a TTL entry.
    UpdatedTtl {
        /// The ledger up to which the entry now lives.
        live_until_ledger_seq: u32,
    },
    /// Any other change kind, or an update to a non-TTL entry.
    Other,
}

/// The state changes one operation produced.
pub struct OperationChanges {
    /// The changes, in the order the network recorded them.
    pub changes: Vec<EntryChange>,
}

/// Execution metadata as the resolver understands it: only the detailed
/// (v3) shape carries per-operation changes; every other shape is opaque
/// and cannot confirm a TTL update.
pub enum TransactionMetadata {
    /// The detailed shape, with one entry per operation.
    V3 {
        /// Per-operation state changes.
        operations: Vec<OperationChanges>,
    },
    /// Any shape without decodable per-operation changes.
    Opaque,
}

/// The transport's answer to a submission, reduced to what resolution
/// reads: the execution metadata. The result code and emitted events are
/// reported at the edge and never consulted here.
pub struct ExecutionOutcome {
    /// The execution metadata returned with the transaction result.
    pub meta: TransactionMetadata,
}

/// What inspecting the metadata decides.
#[derive(Clone, Copy, Debug, PartialEq, Eq, Structural)]
pub enum MetaResolution {
    /// The metadata confirmed the update: the entry's new expiration.
    Resolved {
        /// The ledger at which the entry will now expire.
        ttl_ledger: u32,
    },
    /// The operation recorded no changes; only a direct entry query can
    /// still settle the outcome.
    NeedFallback,
    /// The metadata cannot be mapped to a TTL update.
    Failed {
        /// Always [`Error::LedgerEntryNotFound`].
        error: Error,
    },
}

/// What inspecting an outcome's metadata yields:
/// - an unrecognized (non-v3) shape, an empty operation list, or changes
///   of any shape other than a prior-state record followed by an updated
///   TTL record, fail with [`Error::LedgerEntryNotFound`];
/// - empty changes defer to the fallback query;
/// - a prior-state record followed by an updated TTL record resolves to
///   that record's `live_until_ledger_seq`.
/// Only the first operation is consulted: a single entry is supported per
/// invocation.
pub open spec fn spec_resolve_meta(outcome: ExecutionOutcome) -> MetaResolution {
    match outcome.meta {
        TransactionMetadata::Opaque => MetaResolution::Failed {
            error: Error::LedgerEntryNotFound,
        },
        TransactionMetadata::V3 { operations } => {
            if operations@.len() == 0 {
                MetaResolution::Failed { error: Error::LedgerEntryNotFound }
            } else {
                let changes = operations@[0].changes@;
                if changes.len() == 0 {
                    MetaResolution::NeedFallback
                } else if changes.len() >= 2 && changes[0] is State && changes[1] is UpdatedTtl {
                    MetaResolution::Resolved { ttl_ledger: changes[1]->live_until_ledger_seq }
                } else {
                    MetaResolution::Failed { error: Error::LedgerEntryNotFound }
                }
            }
        },
    }
}

/// Inspects the execution metadata of a submitted extend-TTL transaction
/// and decides the outcome, exactly as [`spec_resolve_meta`] states it.
/// No fallback query happens here: the caller performs one only on
/// [`MetaResolution::NeedFallback`].
pub fn resolve_meta(outcome: &ExecutionOutcome) -> (r: MetaResolution)
    ensures
        r == spec_resolve_meta(*outcome),
{
    match &outcome.meta {
        TransactionMetadata::Opaque => MetaResolution::Failed {
            error: Error::LedgerEntryNotFound,
        },
        TransactionMetadata::V3 { operations } => {
            if operations.len() == 0 {
                return MetaResolution::Failed { error: Error::LedgerEntryNotFound };
            }
            let changes = &operations[0].changes;
            if changes.len() == 0 {
                MetaResolution::NeedFallback
            } else if changes.len() >= 2 {
                match (&changes[0], &changes[1]) {
                    (
                        EntryChange::State,
                        EntryChange::UpdatedTtl { live_until_ledger_seq },
                    ) => MetaResolution::Resolved { ttl_ledger: *live_until_ledger_seq },
                    _ => MetaResolution::Failed { error: Error::LedgerEntryNotFound },
                }
            } else {
                MetaResolution::Failed { error: Error::LedgerEntryNotFound }
            }
        },
    }
}

/// One entry as the direct ledger query reports it, reduced to what the
/// fallback reads: its current expiration ledger.
#[derive(Clone, Copy, Debug, PartialEq, Eq, Structural)]
pub struct SnapshotEntry {
    /// The ledger up to which the entry currently lives.
    pub live_until_ledger_seq: u32,
}

/// The direct query's answer: the requested entries, in order, and the
/// ledger at which the lookup was evaluated.
pub struct LedgerEntrySnapshot {
    /// One record per requested key.
    pub entries: Vec<SnapshotEntry>,
    /// The ledger the lookup was evaluated at.
    pub latest_ledger: i64,
}

/// What the fallback query settles when the metadata recorded no change:
/// if the first entry's pre-existing expiration already lies beyond the
/// lookup ledger plus the requested horizon, that expiration stands and
/// is the answer; otherwise the empty metadata stays unexplained and the
/// call fails with [`Error::LedgerEntryNotFound`].
pub open spec fn spec_resolve_fallback(
    snapshot: LedgerEntrySnapshot,
    extend_to: u32,
) -> Result<u32, Error> {
    let live_until = snapshot.entries@[0].live_until_ledger_seq;
    if snapshot.latest_ledger + extend_to < live_until {
        Ok(live_until)
    } else {
        Err(Error::LedgerEntryNotFound)
    }
}

/// Decides the outcome from the fallback query's snapshot, exactly as
/// [`spec_resolve_fallback`] states it. On success the returned value is
/// the snapshot's own `live_until_ledger_seq`, unmodified.
pub fn resolve_fallback(snapshot: &LedgerEntrySnapshot, extend_to: u32) -> (r: Result<
    u32,
    Error,
>)
    requires
        snapshot.entries@.len() >= 1,
        snapshot.latest_ledger + extend_to <= i64::MAX,
    ensures
        r == spec_resolve_fallback(*snapshot, extend_to),
        r matches Ok(v) ==> v == snapshot.entries@[0].live_until_ledger_seq,
{
    let live_until: u32 = snapshot.entries[0].live_until_ledger_seq;
    if snapshot.latest_ledger + (extend_to as i64) < (live_until as i64) {
        Ok(live_until)
    } else {
        Err(Error::LedgerEntryNotFound)
    }
}

/// Detailed metadata whose first operation's changes open with a
/// prior-state record followed by an updated TTL record resolves to that
/// record's expiration ledger — and asks for no fallback query.
pub proof fn lemma_updated_ttl_resolves(outcome: ExecutionOutcome, x: u32)
    requires
        outcome.meta matches TransactionMetadata::V3 { operations }
            && operations@.len() >= 1
            && operations@[0].changes@.len() >= 2
            && operations@[0].changes@[0] is State
            && operations@[0].changes@[1] == (EntryChange::UpdatedTtl { live_until_ledger_seq: x }),
    ensures
        spec_resolve_meta(outcome) == (MetaResolution::Resolved { ttl_ledger: x }),
{
}

/// An unrecognized metadata shape, or a detailed one with an empty
/// operation list, fails with [`Error::LedgerEntryNotFound`] — and asks
/// for no fallback query.
pub proof fn lemma_unrecognized_meta_fails(outcome: ExecutionOutcome)
    requires
        outcome.meta is Opaque || (outcome.meta matches TransactionMetadata::V3 { operations }
            && operations@.len() == 0),
    ensures
        spec_resolve_meta(outcome) == (MetaResolution::Failed {
            error: Error::LedgerEntryNotFound,
        }),
{
}

/// A fallback snapshot whose pre-existing expiration exceeds the lookup
/// ledger plus the granted horizon resolves to that expiration,
/// unmodified.
pub proof fn lemma_fallback_preexisting_ttl(snapshot: LedgerEntrySnapshot, extend_to: u32)
    requires
        snapshot.entries@.len() >= 1,
        snapshot.latest_ledger + extend_to < snapshot.entries@[0].live_until_ledger_seq,
    ensures
        spec_resolve_fallback(snapshot, extend_to) == Ok::<u32, Error>(
            snapshot.entries@[0].live_until_ledger_seq,
        ),
{
}

/// A fallback snapshot that does not show a qualifying pre-existing
/// expiration leaves the empty metadata unexplained: the call fails with
/// [`Error::LedgerEntryNotFound`].
pub proof fn lemma_fallback_inconclusive(snapshot: LedgerEntrySnapshot, extend_to: u32)
    requires
        snapshot.entries@.len() >= 1,
        snapshot.latest_ledger + extend_to >= snapshot.entries@[0].live_until_ledger_seq,
    ensures
        spec_resolve_fallback(snapshot, extend_to) == Err::<u32, Error>(
            Error::LedgerEntryNotFound,
        ),
{
}

/// Resolution is a pure function of the outcome: two resolutions of the
/// same outcome yield the same answer.
pub proof fn lemma_resolution_deterministic(a: ExecutionOutcome, b: ExecutionOutcome)
    requires
        a == b,
    ensures
        spec_resolve_meta(a) == spec_resolve_meta(b),
{
}

} // verus!
