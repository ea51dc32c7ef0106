use backtrace::bomb::Bomb;

#[test]
fn a_fresh_bomb_is_armed() {
    let b = Bomb::new();
    assert!(b.should_abort());
}

#[test]
fn a_bomb_dropped_while_armed_always_aborts() {
    // The scope-end decision of a bomb that was never disarmed: abort.
    let b = Bomb::new();
    assert_eq!(b.should_abort(), true);
}

#[test]
fn a_bomb_dropped_after_disarm_never_aborts() {
    let mut b = Bomb::new();
    b.disarm();
    assert_eq!(b.should_abort(), false);
}

#[test]
fn disarm_is_idempotent() {
    let mut b = Bomb::new();
    b.disarm();
    b.disarm();
    assert!(!b.should_abort());
}
