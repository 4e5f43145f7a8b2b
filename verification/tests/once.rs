use std::sync::atomic::Ordering;
use sync_api::episode::Guard;
use sync_api::raw_spin::{AtomicState, RawSpinOnce, Reentrant};
use sync_api::state::State;
use sync_api::{Once, OnceState, RawOnce};

#[test]
fn once_state_flags() {
    assert!(!OnceState::new().is_poisoned());
    assert!(OnceState::poisoned().is_poisoned());
    assert!(!OnceState::default().is_poisoned());
    let mut s = OnceState::new();
    assert!(s.poison().is_poisoned());
    assert!(s.is_poisoned());
}

#[test]
fn atomic_state_load_and_store() {
    let mut cell = AtomicState::new(State::Incomplete);
    assert_eq!(cell.load(Ordering::Acquire), State::Incomplete);
    cell.store(State::Poisoned, Ordering::Release);
    assert_eq!(cell.load(Ordering::Acquire), State::Poisoned);
}

#[test]
fn compare_exchange_succeeds_only_from_the_expected_state() {
    let mut cell = AtomicState::new(State::Incomplete);
    let r = cell.compare_exchange(
        State::Poisoned,
        State::Running,
        Ordering::AcqRel,
        Ordering::Relaxed,
    );
    assert_eq!(r, Err(State::Incomplete));
    assert_eq!(cell.load(Ordering::Acquire), State::Incomplete);
    let r = cell.compare_exchange(
        State::Incomplete,
        State::Running,
        Ordering::AcqRel,
        Ordering::Relaxed,
    );
    assert_eq!(r, Ok(State::Incomplete));
    assert_eq!(cell.load(Ordering::Acquire), State::Running);
    let r = cell.compare_exchange(
        State::Incomplete,
        State::Running,
        Ordering::AcqRel,
        Ordering::Relaxed,
    );
    assert_eq!(r, Err(State::Running));
    assert_eq!(cell.load(Ordering::SeqCst), State::Running);
}

#[test]
fn call_once_runs_the_callback_once() {
    let mut once = Once::<RawSpinOnce>::new();
    assert!(!once.is_completed());
    let mut runs = 0;
    once.call_once(|| runs += 1);
    assert!(once.is_completed());
    once.call_once(|| runs += 1);
    once.call_once_force(|_| runs += 1);
    assert_eq!(runs, 1);
}

#[test]
fn default_once_is_incomplete() {
    let once = Once::<RawSpinOnce>::default();
    assert!(!once.is_completed());
}

#[test]
fn try_call_once_returns_the_error_and_poisons() {
    let mut once = Once::<RawSpinOnce>::new();
    assert_eq!(once.try_call_once(|| Err::<(), u8>(7)), Err(7));
    assert!(!once.is_completed());
    let mut seen = None;
    once.call_once_force(|state| seen = Some(state.is_poisoned()));
    assert_eq!(seen, Some(true));
    assert!(once.is_completed());
    assert_eq!(once.try_call_once(|| Err::<(), u8>(9)), Ok(()));
}

#[test]
fn first_attempt_is_not_told_of_poison() {
    let mut once = Once::<RawSpinOnce>::new();
    let mut seen = None;
    let r: Result<(), ()> = once.try_call_once_force(|state| {
        seen = Some(state.is_poisoned());
        Ok(())
    });
    assert_eq!(r, Ok(()));
    assert_eq!(seen, Some(false));
}

#[test]
fn repeated_failure_stays_poisoned() {
    let mut once = Once::<RawSpinOnce>::new();
    for i in 0..3u8 {
        let mut flag = None;
        let r = once.try_call_once_force(|state| {
            flag = Some(state.is_poisoned());
            Err::<(), u8>(i)
        });
        assert_eq!(r, Err(i));
        assert_eq!(flag, Some(i > 0));
        assert!(!once.is_completed());
    }
}

#[test]
fn spin_backend_call_follows_the_lifecycle() {
    let mut raw = RawSpinOnce::incomplete();
    assert!(!raw.is_completed());
    assert_eq!(raw.call(|_| Err::<(), &str>("bad")), Err("bad"));
    assert!(!raw.is_completed());
    let mut poisoned = false;
    assert_eq!(
        raw.call(|s| {
            poisoned = s.is_poisoned();
            Ok::<(), &str>(())
        }),
        Ok(())
    );
    assert!(poisoned);
    assert!(raw.is_completed());
    let mut ran = false;
    assert_eq!(
        raw.call(|_| {
            ran = true;
            Err::<(), &str>("unused")
        }),
        Ok(())
    );
    assert!(!ran);
}

#[test]
fn spin_backend_complete_instance() {
    let mut raw = RawSpinOnce::complete();
    assert!(raw.is_completed());
    assert!(raw.try_acquire().is_none());
    raw.wait_busy();
}

#[test]
fn spin_backend_acquire_and_finish() {
    let mut raw = RawSpinOnce::incomplete();
    let claimed = raw.try_acquire();
    assert!(matches!(claimed, Some(ref s) if !s.is_poisoned()));
    raw.finish(Guard::new());
    assert!(!raw.is_completed());
    let claimed = raw.try_acquire();
    assert!(matches!(claimed, Some(ref s) if s.is_poisoned()));
    let mut guard = Guard::new();
    guard.commit();
    raw.finish(guard);
    assert!(raw.is_completed());
}

#[test]
fn exclusive_acquire_reports_reentrancy() {
    let mut raw = RawSpinOnce::incomplete();
    assert!(matches!(raw.acquire_exclusive(), Ok(Some(ref s)) if !s.is_poisoned()));
    assert_eq!(raw.acquire_exclusive().err(), Some(Reentrant));
    raw.finish(Guard::new());
    assert!(matches!(raw.acquire_exclusive(), Ok(Some(ref s)) if s.is_poisoned()));
    let mut guard = Guard::new();
    guard.commit();
    raw.finish(guard);
    assert!(matches!(raw.acquire_exclusive(), Ok(None)));
}
