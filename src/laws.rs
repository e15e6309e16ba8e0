use vstd::prelude::*;

use crate::engine::{
    after_event, after_events, after_reads, after_write, flags_after_reads, progress_target,
    unlock_reaches_adapter, FlagRead, RemoteEvent, StatRead, WriteOutcome,
};
use crate::state::CacheView;

verus! {

/// Before the snapshot has arrived, no unlock request reaches the remote
/// service, and since the request only reads the cache, whether `k` is
/// unlocked stays as it was.
pub proof fn lemma_unlock_dropped_when_not_ready(v: CacheView, k: Seq<char>)
    requires
        !v.ready,
    ensures
        !unlock_reaches_adapter(v, k),
{
}

/// In the ready state, an unlock request for a flag not yet unlocked makes the
/// set-flag call once; after its confirmation the flag is unlocked and a
/// second request makes no call.
pub proof fn lemma_unlock_idempotent(v: CacheView, name: String)
    requires
        v.ready,
    ensures
        !v.unlocked.contains(name@) ==> unlock_reaches_adapter(v, name@),
        after_event(v, RemoteEvent::FlagConfirmed { name }).unlocked.contains(name@),
        !unlock_reaches_adapter(after_event(v, RemoteEvent::FlagConfirmed { name }), name@),
{
}

/// Two progress requests on a loaded counter, each stored before the next one
/// starts, leave the counter at its first value plus both deltas.
pub proof fn lemma_progress_accumulates(v: CacheView, k: Seq<char>, d1: u64, d2: u64)
    requires
        v.ready,
        v.stats.contains_key(k),
        v.stats[k] + d1 + d2 <= u64::MAX,
    ensures
        progress_target(v, k, d1) is Some,
        progress_target(
            after_write(v, k, progress_target(v, k, d1)->Some_0, WriteOutcome::Stored),
            k,
            d2,
        ) is Some,
        after_write(
            after_write(v, k, progress_target(v, k, d1)->Some_0, WriteOutcome::Stored),
            k,
            progress_target(
                after_write(v, k, progress_target(v, k, d1)->Some_0, WriteOutcome::Stored),
                k,
                d2,
            )->Some_0,
            WriteOutcome::Stored,
        ).stats[k] == v.stats[k] + d1 + d2,
{
}

/// A counter write whose set call or store call failed leaves the cache as
/// it was.
pub proof fn lemma_failed_write_keeps_cache(v: CacheView, k: Seq<char>, value: u64, outcome: WriteOutcome)
    requires
        outcome != WriteOutcome::Stored,
    ensures
        after_write(v, k, value, outcome) == v,
{
}

/// Once the snapshot has failed, and as long as no successful snapshot
/// arrives (none is requested again), the cache stays not ready and no
/// unlock or progress request reaches the remote service.
pub proof fn lemma_snapshot_failure_sticks(v: CacheView, evs: Seq<RemoteEvent>, k: Seq<char>, d: u64)
    requires
        !v.ready,
        evs.len() > 0,
        evs[0] == (RemoteEvent::SnapshotReady { ok: false }),
        forall|i: int| 0 <= i < evs.len() ==> evs[i] != (RemoteEvent::SnapshotReady { ok: true }),
    ensures
        !after_events(v, evs).ready,
        !unlock_reaches_adapter(after_events(v, evs), k),
        progress_target(after_events(v, evs), k, d) is None,
{
    lemma_events_keep_not_ready(v, evs);
}

/// Events without a successful snapshot never make the cache ready.
proof fn lemma_events_keep_not_ready(v: CacheView, evs: Seq<RemoteEvent>)
    requires
        !v.ready,
        forall|i: int| 0 <= i < evs.len() ==> evs[i] != (RemoteEvent::SnapshotReady { ok: true }),
    ensures
        !after_events(v, evs).ready,
    decreases evs.len(),
{
    if evs.len() > 0 {
        lemma_events_keep_not_ready(v, evs.drop_last());
        assert(evs.last() != (RemoteEvent::SnapshotReady { ok: true }));
    }
}

/// Handling events never locks an unlocked flag again and never leaves the
/// ready state.
pub proof fn lemma_events_monotone(v: CacheView, evs: Seq<RemoteEvent>, k: Seq<char>)
    ensures
        v.unlocked.contains(k) ==> after_events(v, evs).unlocked.contains(k),
        v.ready ==> after_events(v, evs).ready,
    decreases evs.len(),
{
    if evs.len() > 0 {
        lemma_events_monotone(v, evs.drop_last(), k);
    }
}

/// A snapshot reload and a counter write never lock an unlocked flag again
/// and never leave the ready state.
pub proof fn lemma_reads_and_writes_monotone(
    v: CacheView,
    flags: Seq<FlagRead>,
    stats: Seq<StatRead>,
    c: Seq<char>,
    value: u64,
    outcome: WriteOutcome,
    k: Seq<char>,
)
    ensures
        v.unlocked.contains(k) ==> after_reads(v, flags, stats).unlocked.contains(k),
        after_reads(v, flags, stats).ready == v.ready,
        after_write(v, c, value, outcome).unlocked == v.unlocked,
        after_write(v, c, value, outcome).ready == v.ready,
{
    lemma_flag_reads_monotone(v.unlocked, flags, k);
}

proof fn lemma_flag_reads_monotone(s: Set<Seq<char>>, reads: Seq<FlagRead>, k: Seq<char>)
    ensures
        s.contains(k) ==> flags_after_reads(s, reads).contains(k),
    decreases reads.len(),
{
    if reads.len() > 0 {
        lemma_flag_reads_monotone(s, reads.drop_last(), k);
    }
}

} // verus!
