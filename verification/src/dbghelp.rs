//! Debug-handle lifecycle manager: reference-counted init/teardown of the one
//! process-global debugging-API handle (on platforms that need it, the
//! Windows symbol handler).
//!
//! Initializing the handle is expensive and the platform forbids double
//! initialization, yet nested and repeated calls all want to use it, so a
//! count of outstanding leases shares one initialization: the first caller
//! saves the current configuration word, applies the library's own and
//! attempts platform initialization; later callers only increment; the
//! release that brings the count back to zero performs platform teardown and
//! restores the saved word, exactly once.
//!
//! All of this state is mutated only while the caller holds the concurrency
//! guard of [`crate::lock`], so plain transitions on a [`HandleState`] value
//! model it faithfully. The platform calls themselves (reading and writing
//! the configuration word, initializing and tearing down the handle) are
//! foreign and unsafe; the transitions here hand the unverified runtime layer
//! the action to perform.

use vstd::prelude::*;

verus! {

/// Shared state of the process-global debug handle.
pub struct HandleState {
    /// Number of live leases; the handle is initialized exactly while the
    /// count is positive.
    pub count: u64,
    /// Configuration word captured when the handle was last initialized;
    /// restored by the final teardown. Meaningful only while `count > 0`
    /// or between [`HandleState::acquire_handle`] answering `NeedsInit` and
    /// the caller reporting the outcome.
    pub saved_opts: u32,
}

/// A claim on the shared handle. Consumed by
/// [`HandleState::release_lease`], so each lease releases its share exactly
/// once; the runtime layer ties that release to scope exit.
pub struct HandleLease {
    ok: bool,
}

/// What an acquisition step asks of the platform layer.
pub enum HandleAcquire {
    /// The handle is already initialized: the new lease shares it and no
    /// platform call is made.
    Shared(HandleLease),
    /// No lease is outstanding: the caller must apply the library's
    /// configuration and attempt platform initialization of the handle, then
    /// report the outcome through [`HandleState::init_succeeded`] or
    /// [`HandleState::init_failed`].
    NeedsInit,
}

/// What a release step asks of the platform layer.
pub enum HandleRelease {
    /// Other leases are still outstanding: nothing further happens.
    Retain,
    /// The last lease is gone: perform platform teardown of the handle and
    /// restore the saved configuration word.
    Teardown { restore_opts: u32 },
}

impl HandleState {
    /// The state at process start: no lease outstanding, handle
    /// uninitialized.
    pub fn new() -> (s: HandleState)
        ensures
            s.count == 0,
    {
        HandleState { count: 0, saved_opts: 0 }
    }

    /// One acquisition: share the initialized handle if any lease is
    /// outstanding, otherwise save the current configuration word and ask the
    /// caller to attempt platform initialization.
    ///
    /// Requires the caller to hold the concurrency guard; the count bound is
    /// a machine limit.
    pub fn acquire_handle(&mut self, current_opts: u32) -> (r: HandleAcquire)
        requires
            old(self).count < u64::MAX,
        ensures
            old(self).count > 0 ==> r is Shared && final(self).count == old(self).count + 1
                && final(self).saved_opts == old(self).saved_opts,
            old(self).count == 0 ==> r is NeedsInit && final(self).count == 0
                && final(self).saved_opts == current_opts,
    {
        if self.count > 0 {
            self.count = self.count + 1;
            HandleAcquire::Shared(HandleLease { ok: true })
        } else {
            self.saved_opts = current_opts;
            HandleAcquire::NeedsInit
        }
    }

    /// Platform initialization succeeded: the handle is now live with exactly
    /// one lease.
    pub fn init_succeeded(&mut self) -> (l: HandleLease)
        requires
            old(self).count == 0,
        ensures
            final(self).count == 1,
            final(self).saved_opts == old(self).saved_opts,
    {
        self.count = 1;
        HandleLease { ok: true }
    }

    /// Platform initialization failed — typically because an external
    /// debugger or another library in the process already initialized the
    /// equivalent global resource. The caller degrades gracefully (proceeds
    /// without symbol resolution); no lease exists and no teardown will run.
    pub fn init_failed(&mut self)
        requires
            old(self).count == 0,
        ensures
            *final(self) == *old(self),
    {
    }

    /// Release one lease. Teardown is asked of the platform layer exactly on
    /// the release that brings the count from one to zero, with the
    /// configuration word saved at initialization; while other leases remain,
    /// nothing happens.
    pub fn release_lease(&mut self, lease: HandleLease) -> (r: HandleRelease)
        requires
            old(self).count > 0,
        ensures
            final(self).count == old(self).count - 1,
            final(self).saved_opts == old(self).saved_opts,
            old(self).count == 1 ==> (r matches HandleRelease::Teardown { restore_opts }
                && restore_opts == old(self).saved_opts),
            old(self).count > 1 ==> r is Retain,
            release_step(*old(self), *final(self), r),
    {
        let HandleLease { ok: _ } = lease;
        self.count = self.count - 1;
        if self.count == 0 {
            HandleRelease::Teardown { restore_opts: self.saved_opts }
        } else {
            HandleRelease::Retain
        }
    }
}

/// The transition relation that [`HandleState::release_lease`] establishes.
pub open spec fn release_step(pre: HandleState, post: HandleState, r: HandleRelease) -> bool {
    &&& pre.count > 0
    &&& post.count == pre.count - 1
    &&& post.saved_opts == pre.saved_opts
    &&& (r is Teardown <==> pre.count == 1)
}

/// Along a run of release steps, the count falls by one per step.
proof fn lemma_count_falls(states: Seq<HandleState>, rels: Seq<HandleRelease>, n: int)
    requires
        states.len() == rels.len() + 1,
        forall|i: int|
            0 <= i < rels.len() ==> #[trigger] release_step(states[i], states[i + 1], rels[i]),
        0 <= n <= rels.len(),
    ensures
        states[n].count == states[0].count - n,
    decreases n,
{
    if n > 0 {
        lemma_count_falls(states, rels, n - 1);
        assert(release_step(states[n - 1], states[n - 1 + 1], rels[n - 1]));
    }
}

/// Law: when the leases of `N` successful acquisitions are released in any
/// order consistent with their lifetimes, platform teardown runs exactly
/// once — on the last release, the one that brings the count from one to
/// zero — and never while any lease is outstanding.
pub proof fn lemma_single_teardown(states: Seq<HandleState>, rels: Seq<HandleRelease>)
    requires
        states.len() == rels.len() + 1,
        states[0].count == rels.len(),
        forall|i: int|
            0 <= i < rels.len() ==> #[trigger] release_step(states[i], states[i + 1], rels[i]),
    ensures
        forall|i: int| 0 <= i < rels.len() ==> (#[trigger] rels[i] is Teardown <==> i == rels.len()
            - 1),
{
    assert forall|i: int| 0 <= i < rels.len() implies (#[trigger] rels[i] is Teardown <==> i
        == rels.len() - 1) by {
        lemma_count_falls(states, rels, i);
        assert(release_step(states[i], states[i + 1], rels[i]));
    }
}

} // verus!
