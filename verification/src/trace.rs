//! Frame traversal: invoke a caller-supplied callback once per stack frame,
//! innermost first, until the callback answers `false` or the frames run out.
//!
//! The raw unwind backend is foreign and platform-specific; it hands the
//! library the instruction pointers of the current call stack, innermost
//! first. [`trace_frames`] holds the traversal logic itself: which frames the
//! callback sees, in which order, and when the walk stops. Its postcondition
//! is gathered in [`trace_post`] so that the laws at the bottom of the module
//! can speak about any traversal outcome.

use vstd::prelude::*;

verus! {

/// Outcome of one frame traversal.
pub struct Traversal {
    /// The frames the callback saw, in visiting order: always a prefix of the
    /// stack, innermost first.
    pub visited: Vec<u64>,
    /// Whether the walk ended because the callback answered `false` (rather
    /// than because the frames ran out).
    pub stopped: bool,
}

/// Everything a finished traversal guarantees. The callback saw exactly
/// `visited`, a prefix of `frames` in innermost-to-outermost order. A walk
/// that was not stopped visited every frame and got the answer `true` on each;
/// a stopped walk got `true` on every visited frame but the last, on which it
/// got `false` — the first `false` ends the walk at once.
pub open spec fn trace_post<F: Fn(u64) -> bool>(
    f: F,
    frames: Seq<u64>,
    visited: Seq<u64>,
    stopped: bool,
) -> bool {
    &&& visited.len() <= frames.len()
    &&& visited == frames.take(visited.len() as int)
    &&& forall|j: int| 0 <= j < visited.len() - 1 ==> call_ensures(f, (frames[j],), true)
    &&& stopped ==> visited.len() > 0 && call_ensures(f, (frames[visited.len() - 1],), false)
    &&& !stopped ==> visited.len() == frames.len() && (frames.len() > 0 ==> call_ensures(
        f,
        (frames[frames.len() - 1],),
        true,
    ))
}

/// Walk `frames` from the innermost outward, handing each to `f`, and stop
/// right after the first frame on which `f` answers `false`.
pub fn trace_frames<F: Fn(u64) -> bool>(frames: &Vec<u64>, f: F) -> (t: Traversal)
    requires
        forall|x: u64| #[trigger] call_requires(f, (x,)),
    ensures
        trace_post(f, frames@, t.visited@, t.stopped),
{
    let mut visited: Vec<u64> = Vec::new();
    let mut i: usize = 0;
    let mut stop: bool = false;
    while i < frames.len() && !stop
        invariant
            forall|x: u64| #[trigger] call_requires(f, (x,)),
            i <= frames@.len(),
            visited@ == frames@.take(i as int),
            visited@.len() == i,
            forall|j: int| 0 <= j < i - 1 ==> call_ensures(f, (frames@[j],), true),
            !stop && i > 0 ==> call_ensures(f, (frames@[i - 1],), true),
            stop ==> i > 0 && call_ensures(f, (frames@[i - 1],), false),
        decreases frames@.len() - i,
    {
        let fr = frames[i];
        visited.push(fr);
        let keep_going = f(fr);
        if !keep_going {
            stop = true;
        }
        i += 1;
        proof {
            assert(visited@ =~= frames@.take(i as int));
        }
    }
    proof {
        assert(visited@ =~= frames@.take(visited@.len() as int));
    }
    Traversal { visited, stopped: stop }
}

/// Law: a callback that always answers `false` sees exactly one frame — the
/// innermost — whatever the actual stack depth.
pub proof fn lemma_stop_after_first<F: Fn(u64) -> bool>(
    f: F,
    frames: Seq<u64>,
    visited: Seq<u64>,
    stopped: bool,
)
    requires
        trace_post(f, frames, visited, stopped),
        forall|x: u64, r: bool| #[trigger] call_ensures(f, (x,), r) ==> r == false,
        frames.len() > 0,
    ensures
        visited.len() == 1,
        visited[0] == frames[0],
        stopped,
{
    if visited.len() > 1 {
        assert(call_ensures(f, (frames[0],), true));
    }
    if !stopped {
        assert(call_ensures(f, (frames[frames.len() - 1],), true));
    }
}

/// Law: a callback that always answers `true` sees every frame the backend
/// reports, in innermost-to-outermost order, and the walk is never stopped
/// early.
pub proof fn lemma_visit_all<F: Fn(u64) -> bool>(
    f: F,
    frames: Seq<u64>,
    visited: Seq<u64>,
    stopped: bool,
)
    requires
        trace_post(f, frames, visited, stopped),
        forall|x: u64, r: bool| #[trigger] call_ensures(f, (x,), r) ==> r == true,
    ensures
        visited == frames,
        !stopped,
{
    if stopped {
        assert(call_ensures(f, (frames[visited.len() - 1],), false));
    }
    assert(visited =~= frames);
}

} // verus!
