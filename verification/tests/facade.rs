use std::cell::Cell;

use backtrace::dbghelp::HandleState;
use backtrace::lock::{lock, unlock, LockAttempt, LockState};
use backtrace::symbolize::Symbol;
use backtrace::{resolve_with, trace_with};

fn sample_stack() -> Vec<u64> {
    vec![0x1000, 0x2000, 0x3000, 0x4000]
}

fn sample_table() -> Vec<Symbol> {
    vec![
        Symbol { addr: 0x1000, info: 10 },
        Symbol { addr: 0x2000, info: 20 },
        Symbol { addr: 0x1000, info: 11 },
    ]
}

#[test]
fn trace_with_a_false_callback_visits_exactly_one_frame() {
    let mut guard = LockState::new();
    let mut handle = HandleState::new();
    let frames = sample_stack();
    let r = trace_with(&mut guard, &mut handle, 1, 0, true, &frames, |_frame| false);
    assert_eq!(r.visited, vec![0x1000]);
    assert!(r.stopped);
}

#[test]
fn trace_with_a_true_callback_visits_every_frame_in_order() {
    let mut guard = LockState::new();
    let mut handle = HandleState::new();
    let frames = sample_stack();
    let r = trace_with(&mut guard, &mut handle, 1, 0, true, &frames, |_frame| true);
    assert_eq!(r.visited, frames);
    assert!(!r.stopped);
}

#[test]
fn trace_stops_right_after_the_first_false() {
    let mut guard = LockState::new();
    let mut handle = HandleState::new();
    let frames = sample_stack();
    let r = trace_with(&mut guard, &mut handle, 1, 0, true, &frames, |frame| frame < 0x2000);
    assert_eq!(r.visited, vec![0x1000, 0x2000]);
    assert!(r.stopped);
}

#[test]
fn trace_releases_guard_and_lease_on_every_path() {
    let mut guard = LockState::new();
    let mut handle = HandleState::new();
    let frames = sample_stack();
    let r = trace_with(&mut guard, &mut handle, 1, 9, true, &frames, |_frame| true);
    // This call initialized the handle, so its release tore it down again,
    // restoring the configuration word it saved.
    assert_eq!(r.teardown, Some(9));
    assert_eq!(handle.count, 0);
    // The guard is free again: the same thread may acquire at once.
    match lock(&mut guard, 1) {
        LockAttempt::Acquired(g) => unlock(&mut guard, g),
        _ => panic!("the guard must be released when the trace returns"),
    }
}

#[test]
fn reentrant_trace_silently_visits_nothing() {
    let mut guard = LockState::new();
    let mut handle = HandleState::new();
    // The thread is already inside a traced operation.
    let g = match lock(&mut guard, 4) {
        LockAttempt::Acquired(g) => g,
        _ => panic!("first acquire must succeed"),
    };
    let frames = sample_stack();
    let r = trace_with(&mut guard, &mut handle, 4, 0, true, &frames, |_frame| true);
    assert!(r.visited.is_empty());
    assert_eq!(r.teardown, None);
    unlock(&mut guard, g);
}

#[test]
fn trace_proceeds_without_symbols_when_initialization_is_refused() {
    let mut guard = LockState::new();
    let mut handle = HandleState::new();
    let frames = sample_stack();
    let r = trace_with(&mut guard, &mut handle, 1, 0, false, &frames, |_frame| true);
    assert_eq!(r.visited, frames);
    assert_eq!(r.teardown, None);
    assert_eq!(handle.count, 0);
}

#[test]
fn shared_handle_is_not_torn_down_by_an_inner_trace() {
    let mut guard = LockState::new();
    let mut handle = HandleState::new();
    // An outer caller already holds a lease.
    let outer = match handle.acquire_handle(5) {
        backtrace::dbghelp::HandleAcquire::NeedsInit => handle.init_succeeded(),
        backtrace::dbghelp::HandleAcquire::Shared(_) => panic!("handle starts uninitialized"),
    };
    let frames = sample_stack();
    let r = trace_with(&mut guard, &mut handle, 1, 8, true, &frames, |_frame| true);
    assert_eq!(r.teardown, None);
    assert_eq!(handle.count, 1);
    match handle.release_lease(outer) {
        backtrace::dbghelp::HandleRelease::Teardown { restore_opts } => assert_eq!(restore_opts, 5),
        backtrace::dbghelp::HandleRelease::Retain => panic!("the outer release must tear down"),
    }
}

#[test]
fn resolve_of_an_address_with_no_records_invokes_nothing() {
    let mut guard = LockState::new();
    let mut handle = HandleState::new();
    let table = sample_table();
    let calls = Cell::new(0usize);
    let r = resolve_with(&mut guard, &mut handle, 1, 0, true, &table, 0x9999, |_sym| {
        calls.set(calls.get() + 1);
    });
    assert_eq!(r.delivered, 0);
    assert_eq!(calls.get(), 0);
}

#[test]
fn resolve_delivers_every_matching_record_in_order() {
    let mut guard = LockState::new();
    let mut handle = HandleState::new();
    let table = sample_table();
    let seen: Cell<u64> = Cell::new(0);
    let calls = Cell::new(0usize);
    let r = resolve_with(&mut guard, &mut handle, 1, 0, true, &table, 0x1000, |sym| {
        // Record the payloads in arrival order, two decimal digits each.
        seen.set(seen.get() * 100 + sym.info);
        calls.set(calls.get() + 1);
    });
    assert_eq!(r.delivered, 2);
    assert_eq!(calls.get(), 2);
    assert_eq!(seen.get(), 1011);
}

#[test]
fn degraded_resolve_delivers_zero_records() {
    let mut guard = LockState::new();
    let mut handle = HandleState::new();
    let table = sample_table();
    let calls = Cell::new(0usize);
    let r = resolve_with(&mut guard, &mut handle, 1, 0, false, &table, 0x1000, |_sym| {
        calls.set(calls.get() + 1);
    });
    assert_eq!(r.delivered, 0);
    assert_eq!(calls.get(), 0);
    assert_eq!(r.teardown, None);
}

#[test]
fn reentrant_resolve_silently_delivers_nothing() {
    let mut guard = LockState::new();
    let mut handle = HandleState::new();
    let g = match lock(&mut guard, 2) {
        LockAttempt::Acquired(g) => g,
        _ => panic!("first acquire must succeed"),
    };
    let table = sample_table();
    let r = resolve_with(&mut guard, &mut handle, 2, 0, true, &table, 0x1000, |_sym| {});
    assert_eq!(r.delivered, 0);
    unlock(&mut guard, g);
}

#[test]
fn empty_stack_visits_nothing() {
    let mut guard = LockState::new();
    let mut handle = HandleState::new();
    let frames: Vec<u64> = Vec::new();
    let r = trace_with(&mut guard, &mut handle, 1, 0, true, &frames, |_frame| true);
    assert!(r.visited.is_empty());
}
