use backtrace::dbghelp::{HandleAcquire, HandleLease, HandleRelease, HandleState};

fn must_init(st: &mut HandleState, opts: u32) -> HandleLease {
    match st.acquire_handle(opts) {
        HandleAcquire::NeedsInit => st.init_succeeded(),
        HandleAcquire::Shared(_) => panic!("an uninitialized handle cannot be shared"),
    }
}

fn must_share(st: &mut HandleState, opts: u32) -> HandleLease {
    match st.acquire_handle(opts) {
        HandleAcquire::Shared(l) => l,
        HandleAcquire::NeedsInit => panic!("an initialized handle must be shared"),
    }
}

#[test]
fn nested_leases_tear_down_once_on_last_release() {
    let mut st = HandleState::new();
    // Three nested acquisitions without an intervening release: 0 -> 1 -> 2 -> 3.
    let l1 = must_init(&mut st, 5);
    assert_eq!(st.count, 1);
    let l2 = must_share(&mut st, 6);
    assert_eq!(st.count, 2);
    let l3 = must_share(&mut st, 7);
    assert_eq!(st.count, 3);
    // Releasing in the same order: teardown exactly once, on the last release.
    assert!(matches!(st.release_lease(l1), HandleRelease::Retain));
    assert!(matches!(st.release_lease(l2), HandleRelease::Retain));
    match st.release_lease(l3) {
        HandleRelease::Teardown { restore_opts } => assert_eq!(restore_opts, 5),
        HandleRelease::Retain => panic!("the last release must tear the handle down"),
    }
    assert_eq!(st.count, 0);
}

#[test]
fn teardown_restores_the_options_saved_at_initialization() {
    let mut st = HandleState::new();
    let l1 = must_init(&mut st, 40);
    // A later shared acquisition does not overwrite the saved word.
    let l2 = must_share(&mut st, 90);
    assert!(matches!(st.release_lease(l2), HandleRelease::Retain));
    match st.release_lease(l1) {
        HandleRelease::Teardown { restore_opts } => assert_eq!(restore_opts, 40),
        HandleRelease::Retain => panic!("the last release must tear the handle down"),
    }
}

#[test]
fn initialization_failure_leaves_no_lease() {
    let mut st = HandleState::new();
    assert!(matches!(st.acquire_handle(3), HandleAcquire::NeedsInit));
    // The platform refused (an external holder): degrade, count stays zero.
    st.init_failed();
    assert_eq!(st.count, 0);
    // The next acquisition starts over.
    assert!(matches!(st.acquire_handle(4), HandleAcquire::NeedsInit));
}

#[test]
fn single_lease_round_trip() {
    let mut st = HandleState::new();
    let l = must_init(&mut st, 11);
    match st.release_lease(l) {
        HandleRelease::Teardown { restore_opts } => assert_eq!(restore_opts, 11),
        HandleRelease::Retain => panic!("releasing the only lease must tear down"),
    }
    assert_eq!(st.count, 0);
}
