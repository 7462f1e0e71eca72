//! The cancellation token: a monotonically increasing generation counter.
//!
//! A run captures the counter's value when it starts and is valid exactly as
//! long as the live counter still equals that captured identity. Starting a
//! newer run or cancelling outright both move the counter, so every older
//! run becomes, and stays, superseded.

use vstd::prelude::*;

verus! {

/// The shared generation counter that coordinates supersession.
///
/// One token is constructed per pipeline instance and passed by mutable
/// reference into every operation that may start, check, or cancel a run.
pub struct CancellationToken {
    generation: u64,
}

/// Whether a run holding `identity` is still wanted when the live counter
/// reads `live`: exactly when the two are equal.
pub open spec fn is_current_spec(live: u64, identity: u64) -> bool {
    live == identity
}

impl View for CancellationToken {
    type V = u64;

    closed spec fn view(&self) -> u64 {
        self.generation
    }
}

impl CancellationToken {
    /// A fresh token; no run has started yet, so the counter reads zero.
    pub fn new() -> (token: Self)
        ensures
            token@ == 0,
    {
        CancellationToken { generation: 0 }
    }

    /// Start a new run: move the counter forward and capture the new value
    /// as the run's identity. Starting a run supersedes every run that
    /// captured an identity earlier.
    pub fn begin_run(&mut self) -> (identity: u64)
        requires
            old(self)@ < u64::MAX,
        ensures
            final(self)@ == old(self)@ + 1,
            identity == final(self)@,
    {
        self.generation = self.generation + 1;
        self.generation
    }

    /// Whether the run that captured `identity` is still the newest one.
    pub fn is_current(&self, identity: u64) -> (current: bool)
        ensures
            current == is_current_spec(self@, identity),
    {
        self.generation == identity
    }

    /// Whether the counter has reached the last representable generation,
    /// so that no further run can be started or cancelled. Callers outside
    /// the verified core test this before asking for either.
    pub fn is_exhausted(&self) -> (exhausted: bool)
        ensures
            exhausted == (self@ == u64::MAX),
    {
        self.generation == u64::MAX
    }

    /// Invalidate every run in flight, whatever identity it holds, by
    /// moving the counter past all captured identities.
    pub fn cancel(&mut self)
        requires
            old(self)@ < u64::MAX,
        ensures
            final(self)@ == old(self)@ + 1,
    {
        self.generation = self.generation + 1;
    }
}

/// The identity handed out by the `k`-th of a row of sequential `begin_run`
/// calls on a token whose counter read `start` before the first of them:
/// each call moves the counter one past the previous identity, so the `k`-th
/// returns `start + k`.
pub open spec fn sequential_identity(start: u64, k: nat) -> int {
    start + k
}

/// Sequential `begin_run` calls return strictly increasing — hence pairwise
/// distinct — identities: of any two calls in the row, the earlier one's
/// identity is strictly below the later one's.
pub proof fn lemma_sequential_identities_increase(start: u64, i: nat, j: nat)
    requires
        i < j,
    ensures
        sequential_identity(start, i) < sequential_identity(start, j),
{
}

/// Validity is one-directional: every operation on the token moves the
/// counter up, never down, so an identity the live counter has once passed
/// stays behind it — a superseded run can never become valid again, however
/// the counter moves on.
pub proof fn lemma_superseded_stays_superseded(live: u64, later: u64, identity: u64)
    requires
        identity < live,
        live <= later,
    ensures
        !is_current_spec(later, identity),
{
}

/// Cancelling moves the live counter to `live + 1`. An identity captured
/// strictly before the cancel was handed out while the counter read at most
/// `live`, so it is at most `live` and can no longer be current; the identity
/// captured by the next `begin_run` after the cancel equals the counter it
/// leaves behind, so that run starts current.
pub proof fn lemma_cancel_invalidates_earlier_runs(live: u64, identity: u64)
    requires
        identity <= live,
        live < u64::MAX,
    ensures
        !is_current_spec((live + 1) as u64, identity),
        live < u64::MAX - 1 ==> is_current_spec((live + 2) as u64, (live + 2) as u64),
{
}

} // verus!
