use sync_api::lazy::LazyLock;
use sync_api::once_cell::OnceCell;
use sync_api::raw_park::RawParkOnce;
use sync_api::raw_spin::RawSpinOnce;
use sync_api::OnceLock;

#[test]
fn once_cell_fills_once() {
    let mut cell = OnceCell::<RawSpinOnce, u32>::new();
    assert_eq!(cell.get(), None);
    assert_eq!(*cell.get_or_init(|| 1), 1);
    assert_eq!(*cell.get_or_init(|| 2), 1);
    assert_eq!(cell.set(3), Err(3));
    assert_eq!(cell.try_insert(4), Err((&1, 4)));
    assert_eq!(cell.get_mut(), Some(&mut 1));
    assert_eq!(cell.take(), Some(1));
    assert_eq!(cell.try_insert(5), Ok(&5));
    assert_eq!(cell.into_inner(), Some(5));
}

#[test]
fn once_cell_failure_then_success() {
    let mut cell = OnceCell::<RawParkOnce, u32>::default();
    assert_eq!(cell.get_or_try_init(|| Err::<u32, i8>(-1)), Err(-1));
    assert_eq!(cell.get(), None);
    assert_eq!(cell.get_or_try_init(|| Ok::<u32, i8>(6)), Ok(&6));
    assert_eq!(cell.get_or_try_init(|| Err::<u32, i8>(-2)), Ok(&6));
}

#[test]
fn once_cell_with_value() {
    let cell = OnceCell::<RawSpinOnce, u32>::with_value(2);
    assert_eq!(cell.get(), Some(&2));
    assert_eq!(*cell.get_unchecked(), 2);
}

#[test]
fn clone_copies_the_value_into_a_cell_of_its_own() {
    let mut cell = OnceLock::<RawSpinOnce, String>::new();
    let empty = cell.clone();
    assert_eq!(empty.get(), None);
    cell.set(String::from("a")).unwrap();
    let mut full = cell.clone();
    assert_eq!(full.get().map(|s| s.as_str()), Some("a"));
    full.get_mut().unwrap().push('b');
    assert_eq!(cell.get().map(|s| s.as_str()), Some("a"));
    let other = OnceCell::<RawSpinOnce, u8>::with_value(1).clone();
    assert_eq!(other.get(), Some(&1));
}

#[test]
fn default_lock_is_empty() {
    let cell = OnceLock::<RawSpinOnce, u8>::default();
    assert_eq!(cell.get(), None);
}

#[test]
fn lazy_runs_its_initializer_on_first_use_only() {
    let mut runs = 0;
    let mut lazy = LazyLock::<RawSpinOnce, u32, _>::new(|| {
        runs += 1;
        41
    });
    assert_eq!(*LazyLock::force(&mut lazy), 41);
    assert_eq!(*LazyLock::force(&mut lazy), 41);
    *LazyLock::force_mut(&mut lazy) += 1;
    assert_eq!(*LazyLock::force(&mut lazy), 42);
    drop(lazy);
    assert_eq!(runs, 1);
}

#[test]
fn lazy_force_mut_first() {
    let mut lazy = LazyLock::<RawSpinOnce, String, _>::new(|| String::from("x"));
    LazyLock::force_mut(&mut lazy).push('y');
    assert_eq!(LazyLock::force(&mut lazy), "xy");
}
