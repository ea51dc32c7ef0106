//! Core of a runtime stack-backtrace library: the concurrency-safety and
//! resource-lifecycle layer that makes non-reentrant, process-global platform
//! debugging APIs safe to enter repeatedly and from many threads.
//!
//! The platform backends (stack walking, symbol-table lookup) are foreign,
//! stateful and not reentrant, so every entry into them must be serialized
//! process-wide, the one global debugging handle must be initialized and torn
//! down exactly once across nested uses, and a panic escaping a
//! caller-supplied callback must never unwind across the foreign boundary.
//! This crate verifies that protocol:
//!
//! - [`lock`]: a process-wide advisory lock with per-thread reentrancy
//!   detection — at most one token outstanding at any instant, and a
//!   reentrant caller is refused softly instead of deadlocking;
//! - [`dbghelp`]: reference-counted init/teardown of the process-global
//!   debugging handle — teardown runs exactly once, on the release of the
//!   last lease;
//! - [`bomb`]: a scope guard that turns a panic escaping a callback into a
//!   deterministic abort;
//! - [`trace`] and [`symbolize`]: the callback-driven traversal of stack
//!   frames and delivery of symbol records.
//!
//! This root composes them into the two facade operations, [`trace_with`] and
//! [`resolve_with`]: each acquires the guard (skipping silently on
//! reentrancy), takes a lease on the debugging handle (degrading gracefully
//! if platform initialization is refused), arms the bomb around the callback,
//! and releases lease and guard on every path. The unverified runtime layer
//! supplies what only the platform knows — the thread id, the current
//! configuration word, whether initialization succeeded, and the raw frames
//! and symbol records themselves — and performs the actions the transitions
//! decide.

use vstd::prelude::*;

pub mod bomb;
pub mod dbghelp;
pub mod lock;
pub mod symbolize;
pub mod trace;

use crate::bomb::Bomb;
use crate::dbghelp::{HandleAcquire, HandleLease, HandleRelease, HandleState};
use crate::lock::{lock, unlock, LockAttempt, LockState};
use crate::symbolize::{matches_count, resolve_symbols, Symbol};
use crate::trace::{trace_frames, trace_post};

verus! {

/// Outcome of one facade trace call.
pub struct TraceReport {
    /// The frames the callback saw, in visiting order; empty on a reentrant
    /// skip.
    pub visited: Vec<u64>,
    /// Whether the callback ended the walk by answering `false`; `false` on a
    /// reentrant skip.
    pub stopped: bool,
    /// `Some(w)` exactly when this call initialized the debugging handle and
    /// its release tore it down again, restoring configuration word `w`.
    pub teardown: Option<u32>,
}

/// Outcome of one facade resolve call.
pub struct ResolveReport {
    /// How many symbol records reached the callback; zero on a reentrant
    /// skip, on a degraded call, or for an address without records.
    pub delivered: usize,
    /// `Some(w)` exactly when this call initialized the debugging handle and
    /// its release tore it down again, restoring configuration word `w`.
    pub teardown: Option<u32>,
}

/// Take a lease on the debugging handle: share it when already initialized,
/// otherwise attempt initialization with the platform's answer `init_ok`.
/// `None` means the call degrades gracefully.
fn lease_handle(handle: &mut HandleState, current_opts: u32, init_ok: bool) -> (r: Option<
    HandleLease,
>)
    requires
        old(handle).count < u64::MAX,
    ensures
        old(handle).count > 0 ==> r is Some && final(handle).count == old(handle).count + 1
            && final(handle).saved_opts == old(handle).saved_opts,
        old(handle).count == 0 && init_ok ==> r is Some && final(handle).count == 1
            && final(handle).saved_opts == current_opts,
        old(handle).count == 0 && !init_ok ==> r is None && final(handle).count == 0,
{
    match handle.acquire_handle(current_opts) {
        HandleAcquire::Shared(l) => Some(l),
        HandleAcquire::NeedsInit => if init_ok {
            Some(handle.init_succeeded())
        } else {
            handle.init_failed();
            None
        },
    }
}

/// Drop a lease, if one was taken, and report the configuration word to
/// restore when this was the final release.
fn unlease_handle(handle: &mut HandleState, lease: Option<HandleLease>) -> (r: Option<u32>)
    requires
        lease is Some ==> old(handle).count > 0,
    ensures
        lease is Some ==> final(handle).count == old(handle).count - 1 && final(handle).saved_opts
            == old(handle).saved_opts,
        lease is None ==> *final(handle) == *old(handle),
        lease is Some && old(handle).count == 1 ==> r == Some(old(handle).saved_opts),
        !(lease is Some && old(handle).count == 1) ==> r is None,
{
    match lease {
        Some(l) => match handle.release_lease(l) {
            HandleRelease::Teardown { restore_opts } => Some(restore_opts),
            HandleRelease::Retain => None,
        },
        None => None,
    }
}

/// Trace the current stack: under the process-wide guard and a handle lease,
/// hand each raw frame (innermost first) to `f` until `f` answers `false`.
///
/// A reentrant call — this thread is already inside a trace or resolve —
/// silently does nothing: zero frames are visited. On every other call the
/// precondition that the guard's mutex is free models the blocking acquire
/// returning; the callback then sees exactly a prefix of `frames` as
/// [`trace_post`] states, with the bomb armed while it runs. Guard and lease
/// are released on every path: guard and handle state end as they began.
pub fn trace_with<F: Fn(u64) -> bool>(
    guard: &mut LockState,
    handle: &mut HandleState,
    thread: u64,
    current_opts: u32,
    init_ok: bool,
    frames: &Vec<u64>,
    f: F,
) -> (r: TraceReport)
    requires
        old(guard).wf(),
        old(handle).count < u64::MAX,
        !old(guard).flag_set(thread) ==> old(guard).owner is None,
        forall|x: u64| #[trigger] call_requires(f, (x,)),
    ensures
        final(guard).wf(),
        final(guard).owner == old(guard).owner,
        forall|t: u64| final(guard).flag_set(t) == old(guard).flag_set(t),
        final(handle).count == old(handle).count,
        old(guard).flag_set(thread) ==> r.visited@ == Seq::<u64>::empty() && !r.stopped
            && *final(guard) == *old(guard) && *final(handle) == *old(handle),
        !old(guard).flag_set(thread) ==> trace_post(f, frames@, r.visited@, r.stopped),
        !old(guard).flag_set(thread) && old(handle).count == 0 && init_ok ==> r.teardown == Some(
            current_opts,
        ),
        (old(guard).flag_set(thread) || old(handle).count > 0 || !init_ok) ==> r.teardown is None,
{
    let attempt = lock(guard, thread);
    match attempt {
        LockAttempt::Reentrant => TraceReport {
            visited: Vec::new(),
            stopped: false,
            teardown: None,
        },
        LockAttempt::Blocked => vstd::pervasive::unreached(),
        LockAttempt::Acquired(g) => {
            let lease = lease_handle(handle, current_opts, init_ok);
            let mut bomb = Bomb::new();
            let walk = trace_frames(frames, f);
            bomb.disarm();
            let teardown = unlease_handle(handle, lease);
            unlock(guard, g);
            TraceReport { visited: walk.visited, stopped: walk.stopped, teardown }
        },
    }
}

/// Resolve an address: under the process-wide guard and a handle lease, hand
/// each symbol record for `addr` to `f`, in backend order.
///
/// A reentrant call silently does nothing. A degraded call — the handle was
/// uninitialized and platform initialization was refused, typically because
/// an external debugger holds the equivalent global resource — delivers zero
/// records, exactly like an address without debug info; neither is an error.
/// Guard and lease are released on every path.
pub fn resolve_with<F: Fn(Symbol) -> ()>(
    guard: &mut LockState,
    handle: &mut HandleState,
    thread: u64,
    current_opts: u32,
    init_ok: bool,
    table: &Vec<Symbol>,
    addr: u64,
    f: F,
) -> (r: ResolveReport)
    requires
        old(guard).wf(),
        old(handle).count < u64::MAX,
        !old(guard).flag_set(thread) ==> old(guard).owner is None,
        forall|s: Symbol| #[trigger] call_requires(f, (s,)),
    ensures
        final(guard).wf(),
        final(guard).owner == old(guard).owner,
        forall|t: u64| final(guard).flag_set(t) == old(guard).flag_set(t),
        final(handle).count == old(handle).count,
        old(guard).flag_set(thread) ==> r.delivered == 0 && *final(guard) == *old(guard)
            && *final(handle) == *old(handle),
        !old(guard).flag_set(thread) && (old(handle).count > 0 || init_ok) ==> r.delivered
            == matches_count(table@, addr) && (forall|j: int|
            0 <= j < table@.len() && table@[j].addr == addr ==> call_ensures(
                f,
                (#[trigger] table@[j],),
                (),
            )),
        !old(guard).flag_set(thread) && old(handle).count == 0 && !init_ok ==> r.delivered == 0,
        !old(guard).flag_set(thread) && old(handle).count == 0 && init_ok ==> r.teardown == Some(
            current_opts,
        ),
        (old(guard).flag_set(thread) || old(handle).count > 0 || !init_ok) ==> r.teardown is None,
{
    let attempt = lock(guard, thread);
    match attempt {
        LockAttempt::Reentrant => ResolveReport { delivered: 0, teardown: None },
        LockAttempt::Blocked => vstd::pervasive::unreached(),
        LockAttempt::Acquired(g) => {
            let lease = lease_handle(handle, current_opts, init_ok);
            let delivered: usize = match &lease {
                Some(_) => {
                    let mut bomb = Bomb::new();
                    let n = resolve_symbols(table, addr, f);
                    bomb.disarm();
                    n
                },
                None => 0,
            };
            let teardown = unlease_handle(handle, lease);
            unlock(guard, g);
            ResolveReport { delivered, teardown }
        },
    }
}

} // verus!
