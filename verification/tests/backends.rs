use sync_api::episode::Guard;
use sync_api::once_lock::OnceLock;
use sync_api::raw_park::{may_park, release_plan, RawParkOnce, Wake};
use sync_api::raw_queue::{claim_word, link_word, should_relink, terminal_word, RawQueueOnce};
use sync_api::state::State;
use sync_api::tagged::TaggedWord;
use sync_api::RawOnce;

fn committed() -> Guard {
    let mut guard = Guard::new();
    guard.commit();
    guard
}

#[test]
fn claim_word_keeps_address_and_sets_running() {
    let word = claim_word(TaggedWord { bits: 0x3 });
    assert_eq!(word.bits, 0x1);
    let word = claim_word(TaggedWord { bits: 0x100 });
    assert_eq!(word.bits, 0x101);
}

#[test]
fn link_word_points_the_node_at_the_old_head() {
    let (next, word) = link_word(0x200, TaggedWord { bits: 0x101 });
    assert_eq!(next, 0x100);
    assert_eq!(word.bits, 0x201);
    let (next, word) = link_word(0x40, TaggedWord { bits: 0x1 });
    assert_eq!(next, 0);
    assert_eq!(word.bits, 0x41);
}

#[test]
fn relink_only_while_the_state_is_unchanged() {
    assert!(should_relink(State::Running, TaggedWord { bits: 0x301 }));
    assert!(!should_relink(State::Running, TaggedWord { bits: 0x2 }));
    assert!(!should_relink(State::Running, TaggedWord { bits: 0x3 }));
}

#[test]
fn terminal_word_is_bare() {
    assert_eq!(terminal_word(Guard::new()).bits, 3);
    assert_eq!(terminal_word(committed()).bits, 2);
}

#[test]
fn queue_backend_wakes_every_waiter_once() {
    let mut raw = RawQueueOnce::incomplete();
    assert_eq!(raw.enqueue(99), None);
    assert!(raw.try_acquire().is_some());
    let a = raw.enqueue(11).unwrap();
    let b = raw.enqueue(22).unwrap();
    let c = raw.enqueue(33).unwrap();
    assert_eq!((a, b, c), (4, 8, 12));
    assert_eq!(raw.observe().strip_tag(), 12);
    assert_eq!(raw.observe().tag_of(), State::Running);
    assert!(!raw.is_signaled(a) && !raw.is_signaled(b) && !raw.is_signaled(c));
    assert!(raw.resumed().is_empty());
    raw.finish(committed());
    assert!(raw.is_completed());
    assert_eq!(raw.observe().bits, 2);
    assert_eq!(raw.resumed(), &vec![33, 22, 11]);
    assert!(raw.is_signaled(a) && raw.is_signaled(b) && raw.is_signaled(c));
    assert_eq!(raw.enqueue(44), None);
    assert!(raw.try_acquire().is_none());
}

#[test]
fn queue_backend_poison_wakes_waiters_too() {
    let mut raw = RawQueueOnce::incomplete();
    assert_eq!(raw.call(|_| Err::<(), u8>(1)), Err(1));
    assert_eq!(raw.observe().bits, 3);
    let claimed = raw.try_acquire();
    assert!(matches!(claimed, Some(ref s) if s.is_poisoned()));
    let a = raw.enqueue(5).unwrap();
    raw.finish(Guard::new());
    assert_eq!(raw.observe().bits, 3);
    assert!(raw.is_signaled(a));
    assert_eq!(raw.resumed(), &vec![5]);
    let claimed = raw.try_acquire();
    assert!(claimed.is_some());
    let b = raw.enqueue(6).unwrap();
    assert_eq!(b, 8);
    assert!(raw.is_signaled(a) && !raw.is_signaled(b));
    raw.finish(committed());
    assert_eq!(raw.resumed(), &vec![5, 6]);
    assert!(raw.is_signaled(b));
    assert!(raw.is_completed());
}

#[test]
fn queue_backend_complete_instance() {
    let mut raw = RawQueueOnce::complete();
    assert!(raw.is_completed());
    let mut ran = false;
    assert_eq!(
        raw.call(|_| {
            ran = true;
            Ok::<(), ()>(())
        }),
        Ok(())
    );
    assert!(!ran);
}

#[test]
fn cell_over_the_queue_backend() {
    let mut cell = OnceLock::<RawQueueOnce, String>::new();
    assert_eq!(cell.get_or_init(|| String::from("leader")), "leader");
    assert_eq!(cell.get_or_init(|| String::from("follower")), "leader");
}

#[test]
fn may_park_only_while_running() {
    assert!(may_park(State::Running));
    assert!(!may_park(State::Incomplete));
    assert!(!may_park(State::Complete));
    assert!(!may_park(State::Poisoned));
}

#[test]
fn release_plan_wakes_all_on_success_and_one_on_failure() {
    assert_eq!(release_plan(committed()), (State::Complete, Wake::All));
    assert_eq!(release_plan(Guard::new()), (State::Poisoned, Wake::One));
}

#[test]
fn park_backend_counts_sleepers() {
    let mut raw = RawParkOnce::incomplete();
    assert!(!raw.park());
    assert_eq!(raw.parked_count(), 0);
    assert!(raw.try_acquire().is_some());
    assert!(raw.park());
    assert!(raw.park());
    assert!(raw.park());
    assert_eq!(raw.parked_count(), 3);
    raw.finish(Guard::new());
    assert_eq!(raw.parked_count(), 2);
    assert!(!raw.is_completed());
    assert!(!raw.park());
    assert!(raw.try_acquire().is_some());
    raw.finish(committed());
    assert_eq!(raw.parked_count(), 0);
    assert!(raw.is_completed());
}

#[test]
fn park_backend_call() {
    let mut raw = RawParkOnce::incomplete();
    assert_eq!(raw.call(|_| Err::<(), u8>(4)), Err(4));
    let mut flag = false;
    assert_eq!(
        raw.call(|s| {
            flag = s.is_poisoned();
            Ok::<(), u8>(())
        }),
        Ok(())
    );
    assert!(flag);
    assert!(raw.is_completed());
    assert!(RawParkOnce::complete().is_completed());
}
