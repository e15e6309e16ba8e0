use vstd::prelude::*;

use crate::state::{CacheView, SteamIntegrationState};

verus! {

/// Outcome of writing one value to the remote service: the write call, then
/// the call that makes it durable.
#[derive(Clone, Copy, Debug, PartialEq, Eq, Structural)]
pub enum WriteOutcome {
    /// The write call failed; the store call was not made.
    SetFailed,
    /// The write call succeeded and the store call failed.
    StoreFailed,
    /// Both calls succeeded.
    Stored,
}

/// Where a write to the remote service stands.
#[derive(Clone, Copy, Debug, PartialEq, Eq, Structural)]
pub enum WriteStage {
    /// The set-flag or set-counter call has been made.
    AwaitingSet,
    /// The store call has been made.
    AwaitingStore,
}

/// What to do after one call of a write.
#[derive(Clone, Copy, Debug, PartialEq, Eq, Structural)]
pub enum WriteStep {
    /// Make the store call next.
    CallStore,
    /// The write is over.
    Finished(WriteOutcome),
}

/// Notification from the remote service's inbound event stream.
pub enum RemoteEvent {
    /// The startup snapshot arrived, with success or not.
    SnapshotReady { ok: bool },
    /// The unlock of a flag was stored.
    FlagConfirmed { name: String },
    /// Counters were stored, with success or not.
    StatsStored { ok: bool },
    /// Connect, disconnect or connection failure.
    ConnectionLifecycle,
}

/// Result of querying one catalog flag during the snapshot reload; `None`
/// when the query failed.
pub struct FlagRead {
    pub name: String,
    pub unlocked: Option<bool>,
}

/// Result of querying one catalog counter during the snapshot reload; `None`
/// when the query failed.
pub struct StatRead {
    pub name: String,
    pub value: Option<u64>,
}

/// Whether an unlock request for `k` reaches the remote service.
pub open spec fn unlock_reaches_adapter(v: CacheView, k: Seq<char>) -> bool {
    v.ready && !v.unlocked.contains(k)
}

/// The value that a progress request of `d` on counter `k` writes, or `None`
/// when the request is dropped.
pub open spec fn progress_target(v: CacheView, k: Seq<char>, d: u64) -> Option<u64> {
    if v.ready && v.stats.contains_key(k) && v.stats[k] + d <= u64::MAX {
        Some((v.stats[k] + d) as u64)
    } else {
        None
    }
}

/// The cache once a write of `value` to counter `k` has ended with `outcome`.
pub open spec fn after_write(v: CacheView, k: Seq<char>, value: u64, outcome: WriteOutcome) -> CacheView {
    if outcome == WriteOutcome::Stored {
        CacheView { stats: v.stats.insert(k, value), ..v }
    } else {
        v
    }
}

/// The next step of a write after a call at `stage` returned `ok`.
pub open spec fn write_step_spec(stage: WriteStage, ok: bool) -> WriteStep {
    match stage {
        WriteStage::AwaitingSet => if ok {
            WriteStep::CallStore
        } else {
            WriteStep::Finished(WriteOutcome::SetFailed)
        },
        WriteStage::AwaitingStore => if ok {
            WriteStep::Finished(WriteOutcome::Stored)
        } else {
            WriteStep::Finished(WriteOutcome::StoreFailed)
        },
    }
}

/// The cache once an event has been handled.
pub open spec fn after_event(v: CacheView, ev: RemoteEvent) -> CacheView {
    match ev {
        RemoteEvent::SnapshotReady { ok } => CacheView { ready: v.ready || ok, ..v },
        RemoteEvent::FlagConfirmed { name } => CacheView { unlocked: v.unlocked.insert(name@), ..v },
        _ => v,
    }
}

/// The cache once a sequence of events has been handled in order.
pub open spec fn after_events(v: CacheView, evs: Seq<RemoteEvent>) -> CacheView
    decreases evs.len(),
{
    if evs.len() == 0 {
        v
    } else {
        after_event(after_events(v, evs.drop_last()), evs.last())
    }
}

/// Whether an event asks for the catalog to be read from the remote service.
pub open spec fn reload_due(ev: RemoteEvent) -> bool {
    ev == RemoteEvent::SnapshotReady { ok: true }
}

/// The unlocked set once the flag queries of a reload are applied.
pub open spec fn flags_after_reads(s: Set<Seq<char>>, reads: Seq<FlagRead>) -> Set<Seq<char>>
    decreases reads.len(),
{
    if reads.len() == 0 {
        s
    } else {
        let prev = flags_after_reads(s, reads.drop_last());
        if reads.last().unlocked == Some(true) {
            prev.insert(reads.last().name@)
        } else {
            prev
        }
    }
}

/// The counters once the counter queries of a reload are applied.
pub open spec fn stats_after_reads(m: Map<Seq<char>, u64>, reads: Seq<StatRead>) -> Map<Seq<char>, u64>
    decreases reads.len(),
{
    if reads.len() == 0 {
        m
    } else {
        let prev = stats_after_reads(m, reads.drop_last());
        match reads.last().value {
            Some(x) => prev.insert(reads.last().name@, x),
            None => prev,
        }
    }
}

/// The cache once a reload's queries are applied.
pub open spec fn after_reads(v: CacheView, flags: Seq<FlagRead>, stats: Seq<StatRead>) -> CacheView {
    CacheView {
        unlocked: flags_after_reads(v.unlocked, flags),
        stats: stats_after_reads(v.stats, stats),
        ..v
    }
}

/// The next step of a write after a call at `stage` returned `ok`: the store
/// call follows a successful set call only.
pub fn write_step(stage: WriteStage, ok: bool) -> (r: WriteStep)
    ensures
        r == write_step_spec(stage, ok),
{
    match stage {
        WriteStage::AwaitingSet => if ok {
            WriteStep::CallStore
        } else {
            WriteStep::Finished(WriteOutcome::SetFailed)
        },
        WriteStage::AwaitingStore => if ok {
            WriteStep::Finished(WriteOutcome::Stored)
        } else {
            WriteStep::Finished(WriteOutcome::StoreFailed)
        },
    }
}

impl SteamIntegrationState {
    /// Decides an unlock request: true when the set-flag call is to be made,
    /// false when the request is dropped (not ready, or already unlocked).
    pub fn on_unlock_achievement(&self, achievement: &str) -> (r: bool)
        requires
            self.wf(),
        ensures
            r == unlock_reaches_adapter(self@, achievement@),
    {
        if !self.is_ready() {
            return false;
        }
        !self.already_unlocked(achievement)
    }

    /// Decides a progress request: the new value to write with the
    /// set-counter call, or `None` when the request is dropped (not ready,
    /// counter not loaded, or the sum does not fit).
    pub fn on_stat_progress(&self, name: &str, add: u64) -> (r: Option<u64>)
        requires
            self.wf(),
        ensures
            r == progress_target(self@, name@, add),
    {
        if !self.is_ready() {
            return None;
        }
        match self.counter_value(name) {
            Some(cur) => cur.checked_add(add),
            None => None,
        }
    }

    /// Applies the end of a counter write: the cache takes the new value
    /// only once it was stored.
    pub fn finish_stat_progress(&mut self, name: &str, new_value: u64, outcome: WriteOutcome)
        requires
            old(self).wf(),
        ensures
            final(self).wf(),
            final(self)@ == after_write(old(self)@, name@, new_value, outcome),
    {
        if outcome == WriteOutcome::Stored {
            self.set_counter(name, new_value);
        }
    }

    /// Handles one event of the remote service; returns whether the catalog
    /// is to be read now (see `read_achievement_status`).
    pub fn steam_callback_handler(&mut self, ev: &RemoteEvent) -> (r: bool)
        requires
            old(self).wf(),
        ensures
            final(self).wf(),
            final(self)@ == after_event(old(self)@, *ev),
            r == reload_due(*ev),
    {
        match ev {
            RemoteEvent::SnapshotReady { ok } => {
                if *ok {
                    self.set_ready(true);
                }
                *ok
            },
            RemoteEvent::FlagConfirmed { name } => {
                self.mark_unlocked(name.as_str());
                false
            },
            RemoteEvent::StatsStored { .. } => false,
            RemoteEvent::ConnectionLifecycle => false,
        }
    }

    /// Applies the flag and counter queries of a snapshot reload: a flag
    /// read as unlocked joins the unlocked set, a counter read with success
    /// takes the value read; a failed query leaves its key as it was.
    pub fn read_achievement_status(&mut self, flags: &Vec<FlagRead>, stats: &Vec<StatRead>)
        requires
            old(self).wf(),
        ensures
            final(self).wf(),
            final(self)@ == after_reads(old(self)@, flags@, stats@),
    {
        let ghost start = self@;
        let mut i: usize = 0;
        while i < flags.len()
            invariant
                self.wf(),
                i <= flags@.len(),
                self@ == (CacheView { unlocked: flags_after_reads(start.unlocked, flags@.take(i as int)), ..start }),
            decreases flags@.len() - i,
        {
            assert(flags@.take(i + 1).drop_last() =~= flags@.take(i as int));
            if flags[i].unlocked == Some(true) {
                self.mark_unlocked(flags[i].name.as_str());
            }
            i = i + 1;
        }
        assert(flags@.take(flags@.len() as int) =~= flags@);
        let ghost mid = self@;
        let mut j: usize = 0;
        while j < stats.len()
            invariant
                self.wf(),
                j <= stats@.len(),
                self@ == (CacheView { stats: stats_after_reads(mid.stats, stats@.take(j as int)), ..mid }),
            decreases stats@.len() - j,
        {
            assert(stats@.take(j + 1).drop_last() =~= stats@.take(j as int));
            match stats[j].value {
                Some(x) => self.set_counter(stats[j].name.as_str(), x),
                None => {},
            }
            j = j + 1;
        }
        assert(stats@.take(stats@.len() as int) =~= stats@);
    }
}

} // verus!
