//! Concurrency guard: a process-wide, non-reentrant advisory lock with
//! per-thread reentrancy detection.
//!
//! The platform backends maintain mutable global state with no internal
//! locking, so every entry into them is serialized by one process-wide mutex.
//! A per-thread flag detects same-thread re-entry (a symbol lookup triggered
//! from inside a trace callback, for example) and fails soft instead of
//! self-deadlocking on the non-reentrant mutex.
//!
//! [`LockState`] models the shared state of that protocol as plain values:
//! which thread currently owns the mutex, and which threads have their
//! reentrancy flag set (the owner together with the threads blocked waiting).
//! The unverified runtime layer holds one such state for the process and
//! performs the actual blocking; the transitions here decide and record every
//! step, and the laws at the bottom of the module hold along any run of them.

use vstd::prelude::*;

verus! {

/// Process-wide state of the advisory lock.
///
/// `flags` holds the id of every thread whose reentrancy flag is set: a
/// thread sets its flag before it blocks on the mutex and clears it when it
/// releases, so the set contains the owner and the blocked waiters. `owner`
/// is the thread currently inside the mutex, if any.
pub struct LockState {
    pub owner: Option<u64>,
    pub flags: Vec<u64>,
}

/// Exclusive process-wide permission to call into the backends. Consumed by
/// [`unlock`], so it is released exactly once; the runtime layer ties that
/// release to scope exit.
pub struct LockGuard {
    pub thread: u64,
}

/// Outcome of one acquisition attempt.
pub enum LockAttempt {
    /// The calling thread's reentrancy flag was already set: the documented
    /// soft outcome, and the caller must skip the operation rather than
    /// retry or block.
    Reentrant,
    /// Another thread is inside the mutex: the caller's flag is now set and
    /// it blocks as a registered waiter until [`grant`] hands it the mutex.
    Blocked,
    /// The mutex was free and the caller now owns it.
    Acquired(LockGuard),
}

impl LockState {
    /// The state at process start: mutex free, no flag set.
    pub fn new() -> (s: LockState)
        ensures
            s.wf(),
            s.owner is None,
            forall|t: u64| !s.flag_set(t),
    {
        LockState { owner: None, flags: Vec::new() }
    }

    /// The reentrancy flag of thread `t` is set.
    pub open spec fn flag_set(self, t: u64) -> bool {
        self.flags@.contains(t)
    }

    /// Each thread's flag is recorded at most once, and the owner, if any,
    /// has its flag set.
    pub open spec fn wf(self) -> bool {
        &&& forall|i: int, j: int|
            0 <= i < j < self.flags@.len() ==> self.flags@[i] != self.flags@[j]
        &&& self.owner matches Some(t) ==> self.flag_set(t)
    }
}

/// Position of `t` in the flag list, if present.
fn flag_index(flags: &Vec<u64>, t: u64) -> (r: Option<usize>)
    ensures
        r matches Some(i) ==> i < flags@.len() && flags@[i as int] == t,
        r is None ==> !flags@.contains(t),
{
    let mut i: usize = 0;
    while i < flags.len()
        invariant
            i <= flags@.len(),
            forall|j: int| 0 <= j < i ==> flags@[j] != t,
        decreases flags@.len() - i,
    {
        if flags[i] == t {
            return Some(i);
        }
        i += 1;
    }
    None
}

/// One acquisition attempt by `thread`.
///
/// Models the entry point of the blocking acquire: a reentrant caller is
/// refused at once with the state untouched and never blocks; otherwise the
/// caller's flag is set and it either takes the free mutex or becomes a
/// blocked waiter ([`grant`] models its later wakeup).
pub fn lock(st: &mut LockState, thread: u64) -> (r: LockAttempt)
    requires
        old(st).wf(),
    ensures
        final(st).wf(),
        old(st).flag_set(thread) ==> r is Reentrant && *final(st) == *old(st),
        !old(st).flag_set(thread) ==> final(st).flag_set(thread) && (forall|t: u64|
            t != thread ==> final(st).flag_set(t) == old(st).flag_set(t)),
        !old(st).flag_set(thread) && old(st).owner is None ==> (r matches LockAttempt::Acquired(g)
            && g.thread == thread) && final(st).owner == Some(thread),
        !old(st).flag_set(thread) && old(st).owner is Some ==> r is Blocked && final(st).owner
            == old(st).owner,
        r is Acquired ==> lock_step(*old(st), LockEvent::Acquire { thread }, *final(st)),
        !(r is Acquired) ==> lock_step(*old(st), LockEvent::Deny { thread }, *final(st)),
{
    if flag_index(&st.flags, thread).is_some() {
        return LockAttempt::Reentrant;
    }
    st.flags.push(thread);
    proof {
        assert forall|t: u64| t != thread implies st.flag_set(t) == old(st).flag_set(t) by {
            if old(st).flag_set(t) {
                let k = choose|k: int| 0 <= k < old(st).flags@.len() && old(st).flags@[k] == t;
                assert(st.flags@[k] == t);
            }
            if st.flag_set(t) {
                let k = choose|k: int| 0 <= k < st.flags@.len() && st.flags@[k] == t;
                assert(k < old(st).flags@.len());
            }
        }
        assert(st.flags@[st.flags@.len() - 1] == thread);
    }
    match st.owner {
        None => {
            st.owner = Some(thread);
            LockAttempt::Acquired(LockGuard { thread })
        },
        Some(_) => LockAttempt::Blocked,
    }
}

/// Hand the freed mutex to the blocked waiter `thread`.
///
/// Models the platform mutex waking one waiter whose flag is already set;
/// enabled only while no thread owns the mutex, so a blocked caller cannot
/// obtain a token before the current owner releases.
pub fn grant(st: &mut LockState, thread: u64) -> (g: LockGuard)
    requires
        old(st).wf(),
        old(st).owner is None,
        old(st).flag_set(thread),
    ensures
        final(st).wf(),
        g.thread == thread,
        final(st).owner == Some(thread),
        final(st).flags == old(st).flags,
        lock_step(*old(st), LockEvent::Acquire { thread }, *final(st)),
{
    st.owner = Some(thread);
    LockGuard { thread }
}

/// Release the mutex and clear the releasing thread's reentrancy flag.
///
/// Consumes the guard, so each token is released exactly once; every other
/// thread's flag is left as it was.
pub fn unlock(st: &mut LockState, g: LockGuard)
    requires
        old(st).wf(),
        old(st).owner == Some(g.thread),
    ensures
        final(st).wf(),
        final(st).owner is None,
        !final(st).flag_set(g.thread),
        forall|t: u64| t != g.thread ==> final(st).flag_set(t) == old(st).flag_set(t),
        lock_step(*old(st), LockEvent::Release { thread: g.thread }, *final(st)),
{
    st.owner = None;
    let idx = flag_index(&st.flags, g.thread);
    match idx {
        Some(i) => {
            st.flags.remove(i);
            proof {
                let pre = old(st).flags@;
                let post = st.flags@;
                assert forall|t: u64| t != g.thread implies st.flag_set(t) == old(st).flag_set(
                    t,
                ) by {
                    if old(st).flag_set(t) {
                        let k = choose|k: int| 0 <= k < pre.len() && pre[k] == t;
                        if k < i {
                            assert(post[k] == t);
                        } else {
                            assert(post[k - 1] == t);
                        }
                    }
                    if st.flag_set(t) {
                        let k = choose|k: int| 0 <= k < post.len() && post[k] == t;
                        if k < i {
                            assert(pre[k] == t);
                        } else {
                            assert(pre[k + 1] == t);
                        }
                    }
                }
                assert forall|k: int| 0 <= k < post.len() implies post[k] != g.thread by {
                    if k < i {
                        assert(pre[k] == post[k]);
                    } else {
                        assert(pre[k + 1] == post[k]);
                    }
                }
            }
        },
        None => {
            // unreachable: the owner always has its flag set
            proof {
                assert(false);
            }
        },
    }
}

/// One observable step of the lock protocol, as far as token accounting is
/// concerned.
pub enum LockEvent {
    /// A thread obtained the mutex, either because it was free or by being
    /// granted it after waiting: one token was handed out.
    Acquire { thread: u64 },
    /// An attempt ended without a token: a reentrant skip, or the caller was
    /// left blocked as a waiter.
    Deny { thread: u64 },
    /// The owner released the mutex: one token was consumed.
    Release { thread: u64 },
}

/// The transition relation that the executable operations above establish:
/// [`lock`] takes an `Acquire` step when it returns a token and a `Deny` step
/// otherwise, [`grant`] takes an `Acquire` step, and [`unlock`] a `Release`
/// step.
pub open spec fn lock_step(pre: LockState, ev: LockEvent, post: LockState) -> bool {
    match ev {
        LockEvent::Acquire { thread } => pre.owner is None && post.owner == Some(thread),
        LockEvent::Deny { thread } => post.owner == pre.owner,
        LockEvent::Release { thread } => pre.owner == Some(thread) && post.owner is None,
    }
}

/// Tokens outstanding after the first `n` events: one handed out per
/// `Acquire`, one consumed per `Release`.
pub open spec fn tokens_after(evs: Seq<LockEvent>, n: int) -> int
    decreases n,
{
    if n <= 0 {
        0
    } else {
        tokens_after(evs, n - 1) + match evs[n - 1] {
            LockEvent::Acquire { .. } => 1int,
            LockEvent::Deny { .. } => 0int,
            LockEvent::Release { .. } => -1int,
        }
    }
}

/// Along a run that starts with the mutex free, the outstanding tokens after
/// `n` events are exactly one while some thread owns the mutex and zero
/// otherwise.
proof fn lemma_tokens_track_owner(states: Seq<LockState>, evs: Seq<LockEvent>, n: int)
    requires
        states.len() == evs.len() + 1,
        states[0].owner is None,
        forall|i: int| 0 <= i < evs.len() ==> #[trigger] lock_step(states[i], evs[i], states[i + 1]),
        0 <= n <= evs.len(),
    ensures
        tokens_after(evs, n) == if states[n].owner is Some {
            1int
        } else {
            0int
        },
    decreases n,
{
    if n > 0 {
        lemma_tokens_track_owner(states, evs, n - 1);
        assert(lock_step(states[n - 1], evs[n - 1], states[n - 1 + 1]));
    }
}

/// Law: whatever sequence of acquisition attempts, grants and releases the
/// threads of the process interleave, starting from a free mutex, at most one
/// token is outstanding at any instant.
pub proof fn lemma_at_most_one_token(states: Seq<LockState>, evs: Seq<LockEvent>)
    requires
        states.len() == evs.len() + 1,
        states[0].owner is None,
        forall|i: int| 0 <= i < evs.len() ==> #[trigger] lock_step(states[i], evs[i], states[i + 1]),
    ensures
        forall|n: int| 0 <= n <= evs.len() ==> 0 <= #[trigger] tokens_after(evs, n) <= 1,
{
    assert forall|n: int| 0 <= n <= evs.len() implies 0 <= #[trigger] tokens_after(evs, n)
        <= 1 by {
        lemma_tokens_track_owner(states, evs, n);
    }
}

} // verus!
