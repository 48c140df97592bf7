//! When accumulated writes must be committed to stable storage.

use std::time::Instant;
use vstd::prelude::*;

verus! {

#[verifier::external_type_specification]
#[verifier::external_body]
pub struct ExInstant(Instant);

/// Relies on `Instant::now`: a reading of the monotonic clock. Nothing is
/// promised of the value.
#[verifier::external_body]
fn clock_now() -> Instant {
    Instant::now()
}

/// Relies on `Instant::elapsed`, read through `Duration::as_millis`: the whole
/// milliseconds that have passed since `t`. Nothing is promised of the value.
#[verifier::external_body]
fn millis_since(t: &Instant) -> u128 {
    t.elapsed().as_millis()
}

/// Default interval of the periodic policy, in milliseconds (5 s).
pub const DEFAULT_SYNC_INTERVAL_MS: u64 = 5000;

/// How eagerly pending writes must be committed.
#[derive(Debug, Clone, Copy, PartialEq, Eq, Structural)]
pub enum SyncPolicy {
    /// Commit after every write.
    Immediate,
    /// Commit once the given number of milliseconds has passed since the
    /// last commit.
    Periodic(u64),
    /// Commit only on an explicit request.
    Manual,
}

impl Default for SyncPolicy {
    fn default() -> (r: Self)
        ensures
            r == SyncPolicy::Periodic(DEFAULT_SYNC_INTERVAL_MS),
    {
        SyncPolicy::Periodic(DEFAULT_SYNC_INTERVAL_MS)
    }
}

/// Whether a commit is due under `policy`, with `pending` writes recorded
/// since the last commit, `synced` telling whether any commit has been
/// recorded, and `elapsed` milliseconds since that commit.
pub open spec fn sync_due(policy: SyncPolicy, pending: nat, synced: bool, elapsed: nat) -> bool {
    match policy {
        SyncPolicy::Immediate => pending > 0,
        SyncPolicy::Periodic(interval) => pending > 0 && (!synced || elapsed >= interval),
        SyncPolicy::Manual => false,
    }
}

/// Tracks the durability obligations of one device handle.
pub struct SyncManager {
    policy: SyncPolicy,
    last_sync: Option<Instant>,
    pending_writes: usize,
}

impl SyncManager {
    /// The policy fixed at construction.
    pub closed spec fn policy(&self) -> SyncPolicy {
        self.policy
    }

    /// Writes recorded since the last commit.
    pub closed spec fn pending(&self) -> nat {
        self.pending_writes as nat
    }

    /// Whether a commit has ever been recorded.
    pub closed spec fn synced(&self) -> bool {
        self.last_sync.is_some()
    }

    /// When the last commit was recorded.
    pub closed spec fn last_sync(&self) -> Option<Instant> {
        self.last_sync
    }

    /// Whether a commit is due when `elapsed` milliseconds have passed since
    /// the last one.
    pub open spec fn due_after(&self, elapsed: nat) -> bool {
        sync_due(self.policy(), self.pending(), self.synced(), elapsed)
    }

    /// A manager with the default policy.
    pub fn new() -> (r: Self)
        ensures
            r.policy() == SyncPolicy::Periodic(DEFAULT_SYNC_INTERVAL_MS),
            r.pending() == 0,
            !r.synced(),
    {
        Self::with_policy(SyncPolicy::Periodic(DEFAULT_SYNC_INTERVAL_MS))
    }

    /// A manager with the given policy, no pending write and no commit yet.
    pub fn with_policy(policy: SyncPolicy) -> (r: Self)
        ensures
            r.policy() == policy,
            r.pending() == 0,
            !r.synced(),
    {
        SyncManager { policy, last_sync: None, pending_writes: 0 }
    }

    /// Record one write.
    pub fn record_write(&mut self)
        requires
            old(self).pending() < usize::MAX,
        ensures
            final(self).pending() == old(self).pending() + 1,
            final(self).policy() == old(self).policy(),
            final(self).last_sync() == old(self).last_sync(),
    {
        self.pending_writes = self.pending_writes + 1;
    }

    /// Whether a commit is due, given the milliseconds elapsed since the last
    /// one; `elapsed_ms` is only consulted by the periodic policy, and only
    /// once a commit has been recorded.
    pub fn needs_sync_after(&self, elapsed_ms: u128) -> (r: bool)
        ensures
            r == self.due_after(elapsed_ms as nat),
    {
        match self.policy {
            SyncPolicy::Immediate => self.pending_writes > 0,
            SyncPolicy::Periodic(interval) => {
                if self.pending_writes == 0 {
                    false
                } else {
                    match &self.last_sync {
                        Some(_) => elapsed_ms >= interval as u128,
                        None => true,
                    }
                }
            },
            SyncPolicy::Manual => false,
        }
    }

    /// Whether a commit is due now. The answer is the policy's rule applied
    /// to the time that the clock reports since the last commit.
    pub fn needs_sync(&self) -> (r: bool)
        ensures
            exists|elapsed: nat| r == #[trigger] self.due_after(elapsed),
            r ==> self.pending() > 0,
            self.policy() == SyncPolicy::Immediate ==> r == (self.pending() > 0),
            self.policy() == SyncPolicy::Manual ==> !r,
            !self.synced() ==> r == (self.pending() > 0 && self.policy() != SyncPolicy::Manual),
    {
        let elapsed_ms: u128 = match &self.last_sync {
            Some(t) => millis_since(t),
            None => 0,
        };
        let r = self.needs_sync_after(elapsed_ms);
        assert(r == self.due_after(elapsed_ms as nat));
        r
    }

    /// Record a completed commit: the clock is read and nothing is pending.
    pub fn mark_synced(&mut self)
        ensures
            final(self).pending() == 0,
            final(self).synced(),
            final(self).policy() == old(self).policy(),
    {
        self.last_sync = Some(clock_now());
        self.pending_writes = 0;
    }

    /// Writes recorded since the last commit.
    pub fn pending_writes(&self) -> (r: usize)
        ensures
            r == self.pending(),
    {
        self.pending_writes
    }

    /// Discard the pending count without recording a commit.
    pub fn reset(&mut self)
        ensures
            final(self).pending() == 0,
            final(self).policy() == old(self).policy(),
            final(self).last_sync() == old(self).last_sync(),
    {
        self.pending_writes = 0;
    }
}

impl Default for SyncManager {
    fn default() -> (r: Self)
        ensures
            r.policy() == SyncPolicy::Periodic(DEFAULT_SYNC_INTERVAL_MS),
            r.pending() == 0,
            !r.synced(),
    {
        Self::new()
    }
}

/// Under the immediate policy a commit is due exactly when a write is
/// pending: not on a fresh manager, right after one recorded write, and
/// not right after a recorded commit.
pub proof fn lemma_immediate_policy(pending: nat, synced: bool, elapsed: nat)
    ensures
        sync_due(SyncPolicy::Immediate, pending, synced, elapsed) == (pending > 0),
        !sync_due(SyncPolicy::Immediate, 0, false, elapsed),
        sync_due(SyncPolicy::Immediate, 0 + 1, false, elapsed),
        !sync_due(SyncPolicy::Immediate, 0, true, elapsed),
{
}

/// Under the periodic policy, once a commit has been recorded, one later
/// write makes a commit due exactly when the interval has passed.
pub proof fn lemma_periodic_policy(interval: u64, pending: nat, elapsed: nat)
    ensures
        sync_due(SyncPolicy::Periodic(interval), pending + 1, true, elapsed) == (elapsed
            >= interval),
        elapsed < interval ==> !sync_due(SyncPolicy::Periodic(interval), 0 + 1, true, elapsed),
        elapsed >= interval ==> sync_due(SyncPolicy::Periodic(interval), 0 + 1, true, elapsed),
{
}

/// Under the manual policy a commit is never due, whatever the number of
/// pending writes.
pub proof fn lemma_manual_policy(pending: nat, synced: bool, elapsed: nat)
    ensures
        !sync_due(SyncPolicy::Manual, pending, synced, elapsed),
{
}

} // verus!
