use sync_api::once_lock::OnceLock;
use sync_api::raw_spin::RawSpinOnce;

type SpinOnceLock<T> = OnceLock<RawSpinOnce, T>;

#[test]
fn new_cell_is_empty() {
    let cell = SpinOnceLock::<u32>::new();
    assert_eq!(cell.get(), None);
    assert_eq!(cell.into_inner(), None);
}

#[test]
fn with_value_is_complete() {
    let mut cell = SpinOnceLock::with_value(7u32);
    assert_eq!(cell.get(), Some(&7));
    assert_eq!(*cell.get_or_init(|| 9), 7);
    assert_eq!(cell.into_inner(), Some(7));
}

#[test]
fn losers_never_install_their_own_value() {
    let mut cell = SpinOnceLock::<String>::new();
    let first = cell.get_or_init(|| String::from("leader")).clone();
    assert_eq!(first, "leader");
    for _ in 1..4 {
        let seen = cell.get_or_init(|| String::from("follower"));
        assert_eq!(seen, "leader");
    }
    assert_eq!(cell.get().map(|s| s.as_str()), Some("leader"));
}

#[test]
fn initializer_runs_exactly_once() {
    let mut cell = SpinOnceLock::<u32>::new();
    let mut runs = 0u32;
    for i in 0..8u32 {
        let v = *cell.get_or_init(|| {
            runs += 1;
            100 + i
        });
        assert_eq!(v, 100);
    }
    assert_eq!(runs, 1);
}

#[test]
fn failed_initializer_poisons_and_a_later_one_recovers() {
    let mut cell = SpinOnceLock::<u32>::new();
    let r: Result<&u32, &str> = cell.get_or_try_init(|| Err("no"));
    assert_eq!(r, Err("no"));
    assert_eq!(cell.get(), None);
    assert_eq!(*cell.get_or_init(|| 5), 5);
    let again: Result<&u32, &str> = cell.get_or_try_init(|| Err("never run"));
    assert_eq!(again, Ok(&5));
    assert_eq!(cell.get(), Some(&5));
}

#[test]
fn set_fills_once_and_hands_back_afterwards() {
    let mut cell = SpinOnceLock::<u32>::new();
    assert_eq!(cell.set(1), Ok(()));
    assert_eq!(cell.set(2), Err(2));
    assert_eq!(cell.get(), Some(&1));
}

#[test]
fn try_insert_reports_present_value() {
    let mut cell = SpinOnceLock::<u32>::new();
    assert_eq!(cell.try_insert(1), Ok(&1));
    assert_eq!(cell.try_insert(2), Err((&1, 2)));
}

#[test]
fn get_mut_and_take() {
    let mut cell = SpinOnceLock::<u32>::new();
    assert_eq!(cell.get_mut(), None);
    cell.set(3).unwrap();
    *cell.get_mut().unwrap() += 1;
    assert_eq!(cell.get(), Some(&4));
    assert_eq!(cell.take(), Some(4));
    assert_eq!(cell.get(), None);
    assert_eq!(cell.set(8), Ok(()));
    assert_eq!(*cell.get_unchecked(), 8);
}

#[test]
fn completed_cell_answers_without_running_anything() {
    let mut cell = SpinOnceLock::<u32>::new();
    assert_eq!(*cell.get_or_init(|| 12), 12);
    let mut runs = 0u32;
    for _ in 0..100 {
        assert_eq!(cell.get(), Some(&12));
        assert_eq!(*cell.get_or_init(|| {
            runs += 1;
            13
        }), 12);
        let r: Result<&u32, ()> = cell.get_or_try_init(|| {
            runs += 1;
            Err(())
        });
        assert_eq!(r, Ok(&12));
    }
    assert_eq!(runs, 0);
}
