use flag_signal::{FlagState, Phase};

fn fresh() -> FlagState {
    FlagState::new()
}

#[test]
fn fresh_state_is_unfired_and_about_to_check() {
    let s = fresh();
    assert!(!s.fired);
    assert!(!s.registered);
    assert!(!s.woken);
    assert_eq!(s.phase, Phase::Check);
}

#[test]
fn signal_between_check_and_register_is_not_lost() {
    let mut s = fresh();
    s.step();
    assert_eq!(s.phase, Phase::Register);
    s.signal();
    assert!(!s.woken);
    s.step();
    assert_eq!(s.phase, Phase::Recheck);
    s.step();
    assert_eq!(s.phase, Phase::Ready);
}

#[test]
fn signal_between_register_and_recheck_is_not_lost() {
    let mut s = fresh();
    s.step();
    s.step();
    assert!(s.registered);
    s.signal();
    assert!(s.woken);
    assert!(!s.registered);
    s.step();
    assert!(s.is_ready());
}

#[test]
fn signal_after_suspend_wakes_and_completes() {
    let mut s = fresh();
    s.step();
    s.step();
    s.step();
    assert_eq!(s.phase, Phase::Pending);
    s.step();
    assert_eq!(s.phase, Phase::Pending);
    s.signal();
    assert!(s.woken);
    s.step();
    assert_eq!(s.phase, Phase::Check);
    s.step();
    assert!(s.is_ready());
}

#[test]
fn model_signal_twice_same_as_once() {
    let mut once = fresh();
    once.step();
    once.step();
    once.step();
    once.signal();
    let mut twice = once;
    twice.signal();
    assert_eq!(once, twice);
}

#[test]
fn model_fired_stays_fired() {
    let mut s = fresh();
    s.signal();
    for _ in 0..6 {
        s.step();
        assert!(s.fired);
        s.signal();
        assert!(s.fired);
    }
}

#[test]
fn model_fast_path_does_not_register() {
    let mut s = fresh();
    s.signal();
    s.step();
    assert_eq!(s.phase, Phase::Ready);
    assert!(!s.registered);
}

#[test]
fn phase_decisions() {
    assert_eq!(Phase::after_check(true), Phase::Ready);
    assert_eq!(Phase::after_check(false), Phase::Register);
    assert_eq!(Phase::after_recheck(true), Phase::Ready);
    assert_eq!(Phase::after_recheck(false), Phase::Pending);
}
