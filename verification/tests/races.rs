use sync_api::episode::{decide, Action, Guard};
use sync_api::raw_park::RawParkOnce;
use sync_api::raw_queue::{should_relink, RawQueueOnce};
use sync_api::raw_spin::RawSpinOnce;
use sync_api::state::State;
use sync_api::RawOnce;

fn success() -> Guard {
    let mut guard = Guard::new();
    guard.commit();
    guard
}

#[test]
fn of_two_callers_that_saw_incomplete_only_one_claims() {
    let mut raw = RawSpinOnce::incomplete();
    let seen_a = raw.observe();
    let seen_b = raw.observe();
    assert_eq!(decide(seen_a), Action::Claim { poisoned: false });
    assert_eq!(decide(seen_b), Action::Claim { poisoned: false });
    assert!(matches!(raw.try_claim(seen_a), Ok(ref s) if !s.is_poisoned()));
    assert_eq!(raw.try_claim(seen_b).err(), Some(State::Running));
    assert_eq!(decide(raw.observe()), Action::Wait);
    raw.finish(success());
    assert_eq!(decide(raw.observe()), Action::Return);
    assert_eq!(raw.try_claim(seen_b).err(), Some(State::Complete));
    assert!(raw.is_completed());
}

#[test]
fn a_stale_observation_cannot_claim_after_a_failure() {
    let mut raw = RawSpinOnce::incomplete();
    let seen_a = raw.observe();
    let seen_b = raw.observe();
    assert!(raw.try_claim(seen_a).is_ok());
    raw.finish(Guard::new());
    assert_eq!(raw.try_claim(seen_b).err(), Some(State::Poisoned));
    let seen_b = raw.observe();
    assert_eq!(decide(seen_b), Action::Claim { poisoned: true });
    assert!(matches!(raw.try_claim(seen_b), Ok(ref s) if s.is_poisoned()));
    assert_eq!(raw.try_claim(seen_b).err(), Some(State::Running));
    raw.finish(success());
    assert!(raw.is_completed());
}

#[test]
fn claiming_from_running_or_complete_is_refused() {
    let mut raw = RawSpinOnce::incomplete();
    assert!(raw.try_claim(State::Incomplete).is_ok());
    assert_eq!(raw.try_claim(State::Running).err(), Some(State::Running));
    raw.finish(success());
    assert_eq!(raw.try_claim(State::Complete).err(), Some(State::Complete));
    assert_eq!(raw.observe(), State::Complete);
}

#[test]
fn a_leader_and_three_followers_on_the_queue() {
    let mut raw = RawQueueOnce::incomplete();
    let mut slot: Option<&str> = None;
    let seen: Vec<_> = (0..4).map(|_| raw.observe()).collect();
    assert!(raw.try_claim(seen[0]).is_ok());
    let mut nodes = Vec::new();
    for follower in 1..4u64 {
        let stale = seen[follower as usize];
        assert_eq!(raw.try_claim(stale).err(), Some(raw.observe()));
        let mut current = raw.observe();
        assert_eq!(decide(current.tag_of()), Action::Wait);
        let node = loop {
            match raw.try_link(current, follower) {
                Ok(node) => break node,
                Err(found) => {
                    assert!(should_relink(State::Running, found));
                    current = found;
                }
            }
        };
        assert!(!raw.is_signaled(node));
        nodes.push(node);
    }
    slot = slot.or(Some("leader"));
    raw.finish(success());
    assert_eq!(raw.resumed(), &vec![3, 2, 1]);
    for node in nodes {
        assert!(raw.is_signaled(node));
        assert_eq!(decide(raw.observe().tag_of()), Action::Return);
        assert_eq!(slot.or(Some("follower")), Some("leader"));
    }
}

#[test]
fn a_link_against_a_moved_head_is_retried() {
    let mut raw = RawQueueOnce::incomplete();
    let first = raw.observe();
    assert!(raw.try_claim(first).is_ok());
    let head = raw.observe();
    assert_eq!(raw.try_link(head, 10), Ok(4));
    let found = raw.try_link(head, 20).unwrap_err();
    assert_eq!(found.bits, 5);
    assert!(should_relink(State::Running, found));
    assert_eq!(raw.try_link(found, 20), Ok(8));
    raw.finish(Guard::new());
    assert_eq!(raw.resumed(), &vec![20, 10]);
}

#[test]
fn a_link_after_the_episode_ended_is_given_up() {
    let mut raw = RawQueueOnce::incomplete();
    let first = raw.observe();
    assert!(raw.try_claim(first).is_ok());
    let head = raw.observe();
    raw.finish(success());
    let found = raw.try_link(head, 30).unwrap_err();
    assert_eq!(found.bits, 2);
    assert!(!should_relink(State::Running, found));
    assert!(raw.resumed().is_empty());
    assert_eq!(raw.try_link(found, 30), Err(found));
}

#[test]
fn parked_callers_are_woken_as_the_outcome_says() {
    let mut raw = RawParkOnce::incomplete();
    let seen_a = raw.observe();
    let seen_b = raw.observe();
    assert!(raw.try_claim(seen_a).is_ok());
    assert_eq!(raw.try_claim(seen_b).err(), Some(State::Running));
    assert!(raw.park());
    assert!(raw.park());
    raw.finish(Guard::new());
    assert_eq!(raw.parked_count(), 1);
    let woken = raw.observe();
    assert!(matches!(raw.try_claim(woken), Ok(ref s) if s.is_poisoned()));
    raw.finish(success());
    assert_eq!(raw.parked_count(), 0);
    assert_eq!(raw.observe(), State::Complete);
}
