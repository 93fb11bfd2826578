//! The monitor itself: the fixed set of monitored paths, the watch registry,
//! the aggregate state carried across cycles, and the per-cycle reconciliation
//! that decides when to dispatch.
//!
//! The caller drives the loop: it reads pending watch-invalidation
//! notifications and hands their handles to [`Monitor::process_invalidations`];
//! it probes every path, asks [`Monitor::needs_watch`] which paths want a
//! watch installed, records successful installations with
//! [`Monitor::record_watch`]; and it performs whatever plan
//! [`Monitor::reconcile`] returns. Watch handles are opaque tokens the caller
//! assigns; the monitor only compares them.

use vstd::prelude::*;
use crate::dispatch::{all_mounted, any_unmounted, plan_matches, Dispatch};
use crate::state::{aggregate_of, compute_aggregate, AggregateState};

verus! {

/// The monitor's configuration, already parsed and validated by the caller:
/// the ordered list of monitored paths, the loop pacing in seconds, and the
/// two transition commands.
#[derive(Clone, Debug)]
pub struct Config {
    pub mount_points: Vec<String>,
    pub delay_seconds: u64,
    pub all_mounted_cmd: String,
    pub any_unmounted_cmd: String,
}

/// The command text announced for a given aggregate state.
pub open spec fn command_for(config: Config, state: AggregateState) -> Seq<char> {
    match state {
        AggregateState::AllMounted => config.all_mounted_cmd@,
        AggregateState::NotAllMounted => config.any_unmounted_cmd@,
    }
}

/// Whether a cycle that computed the given per-path statuses dispatches, given
/// the aggregate state carried in from the previous cycle: it does exactly
/// when the newly derived aggregate differs.
pub open spec fn fires(current: AggregateState, statuses: Seq<bool>) -> bool {
    aggregate_of(statuses) != current
}

/// A registry entry after a batch of invalidation notifications: a handle
/// named by some notification is removed, any other entry is kept.
pub open spec fn entry_after_invalidation(w: Option<u64>, invalidated: Seq<u64>) -> Option<u64> {
    match w {
        Some(h) => if invalidated.contains(h) {
            None
        } else {
            Some(h)
        },
        None => None,
    }
}

/// Whether installing a watch is called for: exactly when the path is
/// currently reported mounted and has no active watch.
pub open spec fn watch_needed(entry: Option<u64>, mounted: bool) -> bool {
    mounted && entry is None
}

/// One monitor instance: the configuration, the watch registry (one optional
/// handle per configured path, in the same order), the aggregate state carried
/// across cycles, and the dry-run flag.
pub struct Monitor {
    pub config: Config,
    pub watches: Vec<Option<u64>>,
    pub state: AggregateState,
    pub dry_run: bool,
}

impl Monitor {
    /// Well-formedness: the registry holds exactly one entry per monitored
    /// path.
    pub open spec fn wf(&self) -> bool {
        self.watches@.len() == self.config.mount_points@.len()
    }

    /// Creates a monitor from the startup probe pass and returns the initial
    /// dispatch plan: the initial aggregate state is derived from `statuses`,
    /// every path starts without a watch, and the plan announces that initial
    /// state.
    pub fn new(config: Config, dry_run: bool, statuses: &Vec<bool>) -> (r: (Monitor, Dispatch))
        requires
            statuses@.len() == config.mount_points@.len(),
        ensures
            r.0.wf(),
            r.0.config == config,
            r.0.dry_run == dry_run,
            r.0.state == aggregate_of(statuses@),
            forall|i: int| 0 <= i < r.0.watches@.len() ==> r.0.watches@[i] is None,
            plan_matches(
                r.1,
                aggregate_of(statuses@),
                command_for(config, aggregate_of(statuses@)),
                dry_run,
            ),
    {
        let state = compute_aggregate(statuses);
        let d = match state {
            AggregateState::AllMounted => all_mounted(&config.all_mounted_cmd, dry_run),
            AggregateState::NotAllMounted => any_unmounted(&config.any_unmounted_cmd, dry_run),
        };
        let n = config.mount_points.len();
        let mut watches: Vec<Option<u64>> = Vec::new();
        let mut i: usize = 0;
        while i < n
            invariant
                0 <= i <= n,
                watches@.len() == i,
                forall|j: int| 0 <= j < i ==> watches@[j] is None,
            decreases n - i,
        {
            watches.push(None);
            i = i + 1;
        }
        (Monitor { config, watches, state, dry_run }, d)
    }

    /// Removes every registry entry whose handle was named by a pending
    /// invalidation notification; all other entries, and everything else about
    /// the monitor, are untouched.
    pub fn process_invalidations(&mut self, invalidated: &Vec<u64>)
        requires
            old(self).wf(),
        ensures
            final(self).wf(),
            final(self).config == old(self).config,
            final(self).state == old(self).state,
            final(self).dry_run == old(self).dry_run,
            final(self).watches@.len() == old(self).watches@.len(),
            forall|i: int|
                0 <= i < old(self).watches@.len() ==> final(self).watches@[i]
                    == entry_after_invalidation(old(self).watches@[i], invalidated@),
    {
        let n = self.watches.len();
        let mut i: usize = 0;
        while i < n
            invariant
                0 <= i <= n,
                n == old(self).watches@.len(),
                self.wf() == old(self).wf(),
                self.config == old(self).config,
                self.state == old(self).state,
                self.dry_run == old(self).dry_run,
                self.watches@.len() == old(self).watches@.len(),
                forall|j: int|
                    0 <= j < i ==> self.watches@[j] == entry_after_invalidation(
                        old(self).watches@[j],
                        invalidated@,
                    ),
                forall|j: int| i <= j < n ==> self.watches@[j] == old(self).watches@[j],
            decreases n - i,
        {
            let entry = self.watches[i];
            match entry {
                Some(h) => {
                    if contains_handle(invalidated, h) {
                        self.watches.set(i, None);
                    }
                },
                None => {},
            }
            i = i + 1;
        }
    }

    /// Whether a watch installation should be attempted for the path at
    /// `index`, given that the path was just probed as `mounted`: exactly when
    /// it is mounted and has no active watch.
    pub fn needs_watch(&self, index: usize, mounted: bool) -> (r: bool)
        requires
            self.wf(),
            index < self.config.mount_points@.len(),
        ensures
            r == watch_needed(self.watches@[index as int], mounted),
    {
        mounted && self.watches[index].is_none()
    }

    /// Records a freshly installed watch handle for the path at `index`,
    /// overwriting a presumed-stale handle if one is still present; no other
    /// entry and nothing else about the monitor changes.
    pub fn record_watch(&mut self, index: usize, handle: u64)
        requires
            old(self).wf(),
            index < old(self).config.mount_points@.len(),
        ensures
            final(self).wf(),
            final(self).config == old(self).config,
            final(self).state == old(self).state,
            final(self).dry_run == old(self).dry_run,
            final(self).watches@ == old(self).watches@.update(index as int, Some(handle)),
    {
        self.watches.set(index, Some(handle));
    }

    /// Finishes a cycle: derives the aggregate state from this cycle's
    /// per-path statuses, carries it over, and returns a dispatch plan exactly
    /// when the aggregate changed — the plan announcing the new state with its
    /// configured command under the monitor's dry-run setting.
    pub fn reconcile(&mut self, statuses: &Vec<bool>) -> (d: Option<Dispatch>)
        requires
            old(self).wf(),
            statuses@.len() == old(self).config.mount_points@.len(),
        ensures
            final(self).wf(),
            final(self).config == old(self).config,
            final(self).dry_run == old(self).dry_run,
            final(self).watches == old(self).watches,
            final(self).state == aggregate_of(statuses@),
            d is Some <==> fires(old(self).state, statuses@),
            d matches Some(p) ==> plan_matches(
                p,
                aggregate_of(statuses@),
                command_for(old(self).config, aggregate_of(statuses@)),
                old(self).dry_run,
            ),
    {
        let new_state = compute_aggregate(statuses);
        if new_state != self.state {
            self.state = new_state;
            let d = match new_state {
                AggregateState::AllMounted => all_mounted(&self.config.all_mounted_cmd, self.dry_run),
                AggregateState::NotAllMounted => any_unmounted(
                    &self.config.any_unmounted_cmd,
                    self.dry_run,
                ),
            };
            Some(d)
        } else {
            None
        }
    }

    /// The number of monitored paths.
    pub fn path_count(&self) -> (n: usize)
        ensures
            n == self.config.mount_points@.len(),
    {
        self.config.mount_points.len()
    }

    /// The aggregate state carried from the last completed cycle.
    pub fn current_state(&self) -> (s: AggregateState)
        ensures
            s == self.state,
    {
        self.state
    }
}

/// Whether the batch of invalidation notifications names the given handle.
fn contains_handle(handles: &Vec<u64>, handle: u64) -> (r: bool)
    ensures
        r == handles@.contains(handle),
{
    let mut i: usize = 0;
    while i < handles.len()
        invariant
            0 <= i <= handles@.len(),
            forall|j: int| 0 <= j < i ==> handles@[j] != handle,
        decreases handles@.len() - i,
    {
        if handles[i] == handle {
            return true;
        }
        i = i + 1;
    }
    false
}

/// How one attempt to read pending watch notifications is to be treated.
#[derive(Clone, Copy, Debug, PartialEq, Eq, Structural)]
pub enum NotificationReadOutcome {
    /// Notifications (possibly none) were read; the cycle proceeds.
    Proceed,
    /// The read failed only because none were currently available; the cycle
    /// still proceeds, with no notifications.
    ProceedEmpty,
    /// The read failed for another reason: the monitor cannot safely continue
    /// without a reliable notification channel.
    Fatal,
}

/// Classifies a notification-read attempt: a failure for any reason other than
/// "none currently available" is fatal; either other outcome lets the cycle
/// run in full, so pacing is never skipped.
pub fn classify_notification_read(read_ok: bool, would_block: bool) -> (r:
    NotificationReadOutcome)
    ensures
        read_ok ==> r == NotificationReadOutcome::Proceed,
        !read_ok && would_block ==> r == NotificationReadOutcome::ProceedEmpty,
        !read_ok && !would_block ==> r == NotificationReadOutcome::Fatal,
{
    if read_ok {
        NotificationReadOutcome::Proceed
    } else if would_block {
        NotificationReadOutcome::ProceedEmpty
    } else {
        NotificationReadOutcome::Fatal
    }
}

/// Dispatch fires exactly once per aggregate-state change: a cycle dispatches
/// exactly when the aggregate derived from its statuses differs from the state
/// carried in, and a following cycle that derives the same statuses never
/// dispatches again.
pub proof fn lemma_dispatch_once_per_change(current: AggregateState, statuses: Seq<bool>)
    ensures
        fires(current, statuses) <==> aggregate_of(statuses) != current,
        !fires(aggregate_of(statuses), statuses),
{
}

} // verus!
