//! The protocol under interleaving: any number of callers race to fill one
//! cell, each taking one atomic step at a time in an arbitrary order.
//!
//! A step is one operation of a backend: a caller observes the state
//! (`observe`), acts on what it saw as `action_for` says, claims the episode
//! by a compare-and-swap from the state it saw (`try_claim`), links itself
//! to the waiters while an episode is in flight (`try_link`), and as owner
//! ends the episode and resumes the waiters (`finish`). A caller that spins
//! instead of sleeping is the same caller without the list: it leaves its
//! wait when the state changes, which is when the list is drained. This
//! module states what holds in every world that such steps can reach.

use crate::episode::{action_for, Action};
use crate::state::State;
use vstd::prelude::*;

verus! {

/// Where one caller stands in its call.
pub enum Caller {
    /// About to observe the state.
    Start,
    /// Has observed the state and not yet acted on it.
    Observed(State),
    /// Found an initializer executing and sleeps until it is resumed.
    Parked,
    /// Owns the episode: its initializer is executing, and was told whether
    /// it recovers from a failed attempt.
    Running { poisoned: bool },
    /// Has returned: the value of the cell, or nothing if its own
    /// initializer failed.
    Returned(Option<int>),
}

/// The shared cell, the callers, and counts of what has happened.
pub struct World {
    /// The lifecycle state.
    pub state: State,
    /// The value slot.
    pub slot: Option<int>,
    /// Every caller's position.
    pub callers: Seq<Caller>,
    /// The list of waiters: the callers linked in since the episode in
    /// flight began, the latest first.
    pub waiting: Seq<int>,
    /// Initializer invocations started.
    pub runs: nat,
    /// Initializer invocations that succeeded.
    pub successes: nat,
    /// Initializer invocations that failed.
    pub failures: nat,
}

/// An empty cell with `n` callers about to start.
pub open spec fn fresh(n: nat) -> World {
    World {
        state: State::Incomplete,
        slot: None,
        callers: Seq::new(n, |i: int| Caller::Start),
        waiting: Seq::empty(),
        runs: 0,
        successes: 0,
        failures: 0,
    }
}

/// The callers after the owner ends its episode: the owner has returned
/// with `result`, and every caller on the list it displaced is resumed to
/// observe again.
pub open spec fn release(
    callers: Seq<Caller>,
    displaced: Seq<int>,
    owner: int,
    result: Caller,
) -> Seq<Caller> {
    Seq::new(
        callers.len(),
        |k: int|
            if k == owner {
                result
            } else if displaced.contains(k) {
                Caller::Start
            } else {
                callers[k]
            },
    )
}

/// One atomic step of caller `i`. `outcome` is what its initializer returns
/// if the step is the end of an episode: a value, or nothing for a failure.
pub open spec fn step(w: World, i: int, outcome: Option<int>) -> World {
    if !(0 <= i < w.callers.len()) {
        w
    } else {
        match w.callers[i] {
            Caller::Start => World { callers: w.callers.update(i, Caller::Observed(w.state)), ..w },
            Caller::Observed(seen) => match action_for(seen) {
                Action::Return => World {
                    callers: w.callers.update(i, Caller::Returned(w.slot)),
                    ..w
                },
                Action::Wait => if w.state == State::Running {
                    World {
                        callers: w.callers.update(i, Caller::Parked),
                        waiting: seq![i] + w.waiting,
                        ..w
                    }
                } else {
                    World { callers: w.callers.update(i, Caller::Start), ..w }
                },
                Action::Claim { poisoned } => if w.state == seen {
                    World {
                        state: w.state.after_claim(seen),
                        callers: w.callers.update(i, Caller::Running { poisoned }),
                        runs: w.runs + 1,
                        ..w
                    }
                } else {
                    World { callers: w.callers.update(i, Caller::Start), ..w }
                },
            },
            Caller::Running { .. } => match outcome {
                Some(v) => World {
                    state: State::Complete,
                    slot: Some(v),
                    callers: release(w.callers, w.waiting, i, Caller::Returned(Some(v))),
                    waiting: Seq::empty(),
                    successes: w.successes + 1,
                    ..w
                },
                None => World {
                    state: State::Poisoned,
                    callers: release(w.callers, w.waiting, i, Caller::Returned(None)),
                    waiting: Seq::empty(),
                    failures: w.failures + 1,
                    ..w
                },
            },
            Caller::Parked => w,
            Caller::Returned(_) => w,
        }
    }
}

/// The world after the steps of `schedule`, each a caller and the outcome of
/// its initializer should the step end an episode.
pub open spec fn run(w: World, schedule: Seq<(int, Option<int>)>) -> World
    decreases schedule.len(),
{
    if schedule.len() == 0 {
        w
    } else {
        step(run(w, schedule.drop_last()), schedule.last().0, schedule.last().1)
    }
}

/// The world that `n` callers reach from an empty cell by `schedule`.
pub open spec fn reached(n: nat, schedule: Seq<(int, Option<int>)>) -> World {
    run(fresh(n), schedule)
}

/// What every reachable world satisfies: an owner exists only while the
/// state is `Running`, and then only one; the parked callers are exactly
/// those on the list, each once, and only during an episode; the slot is
/// filled exactly when the state is `Complete`; the counts add up; whoever
/// returned a value returned the slot's; and an observation of `Complete`
/// stays true.
pub open spec fn consistent(w: World) -> bool {
    &&& forall|i: int|
        0 <= i < w.callers.len() && #[trigger] w.callers[i] is Running ==> w.state
            == State::Running
    &&& forall|i: int, j: int|
        0 <= i < w.callers.len() && 0 <= j < w.callers.len() && #[trigger] w.callers[i]
            is Running && #[trigger] w.callers[j] is Running ==> i == j
    &&& forall|i: int|
        0 <= i < w.callers.len() && #[trigger] w.callers[i] == Caller::Parked ==> w.state
            == State::Running
    &&& forall|k: int|
        0 <= k < w.waiting.len() ==> 0 <= #[trigger] w.waiting[k] < w.callers.len()
            && w.callers[w.waiting[k]] == Caller::Parked
    &&& forall|i: int|
        0 <= i < w.callers.len() && #[trigger] w.callers[i] == Caller::Parked
            ==> w.waiting.contains(i)
    &&& w.waiting.no_duplicates()
    &&& w.slot is Some <==> w.state == State::Complete
    &&& w.successes == (if w.state == State::Complete {
        1nat
    } else {
        0nat
    })
    &&& w.runs == w.successes + w.failures + (if w.state == State::Running {
        1nat
    } else {
        0nat
    })
    &&& forall|i: int|
        0 <= i < w.callers.len() ==> (#[trigger] w.callers[i] matches Caller::Returned(Some(v))
            ==> w.slot == Some(v))
    &&& forall|i: int|
        0 <= i < w.callers.len() && #[trigger] w.callers[i] == Caller::Observed(State::Complete)
            ==> w.state == State::Complete
}

/// Initializers never fail in this schedule.
pub open spec fn infallible(schedule: Seq<(int, Option<int>)>) -> bool {
    forall|k: int| 0 <= k < schedule.len() ==> (#[trigger] schedule[k]).1 is Some
}

/// A fresh world is consistent.
pub proof fn lemma_fresh_consistent(n: nat)
    ensures
        consistent(fresh(n)),
{
}

/// A step keeps a consistent world consistent, keeps the callers, and moves
/// the state only along the lifecycle.
pub proof fn lemma_step_consistent(w: World, i: int, outcome: Option<int>)
    requires
        consistent(w),
    ensures
        consistent(step(w, i, outcome)),
        step(w, i, outcome).callers.len() == w.callers.len(),
        step(w, i, outcome).state == w.state || w.state.steps_to(step(w, i, outcome).state),
        step(w, i, outcome).failures == w.failures || outcome is None,
{
    let n = step(w, i, outcome);
    if 0 <= i < w.callers.len() {
        // Only a parked caller is on the list, so a caller that steps is not.
        if w.callers[i] != Caller::Parked {
            assert forall|k: int| 0 <= k < w.waiting.len() implies #[trigger] w.waiting[k]
                != i by {}
        }
        // Another caller's position changes only by being resumed.
        assert forall|a: int| 0 <= a < n.callers.len() && a != i implies #[trigger] n.callers[a]
            == w.callers[a] || (w.callers[a] == Caller::Parked && n.callers[a] == Caller::Start
            && w.callers[i] is Running) by {
            if w.callers[i] is Running && w.callers[a] != Caller::Parked
                && w.waiting.contains(a) {
                let k = choose|k: int| 0 <= k < w.waiting.len() && w.waiting[k] == a;
            }
        }
        // Whoever is parked afterwards is on the list.
        assert forall|a: int|
            0 <= a < n.callers.len() && #[trigger] n.callers[a] == Caller::Parked implies n.state
            == State::Running && n.waiting.contains(a) by {
            if a != i {
                let k = choose|k: int| 0 <= k < w.waiting.len() && w.waiting[k] == a;
                if n.waiting.len() == w.waiting.len() + 1 {
                    assert(n.waiting[k + 1] == a);
                }
            } else if w.callers[i] != Caller::Parked {
                assert(n.waiting[0] == i);
            }
        }
    }
}

/// Every world reached from a fresh one is consistent.
pub proof fn lemma_reached_consistent(n: nat, schedule: Seq<(int, Option<int>)>)
    ensures
        consistent(reached(n, schedule)),
        reached(n, schedule).callers.len() == n,
        infallible(schedule) ==> reached(n, schedule).failures == 0,
    decreases schedule.len(),
{
    if schedule.len() > 0 {
        lemma_reached_consistent(n, schedule.drop_last());
        lemma_step_consistent(
            reached(n, schedule.drop_last()),
            schedule.last().0,
            schedule.last().1,
        );
        if infallible(schedule) {
            lemma_infallible_prefix(schedule);
        }
    }
}

/// A schedule without failures has none in its last step nor before it.
proof fn lemma_infallible_prefix(schedule: Seq<(int, Option<int>)>)
    requires
        schedule.len() > 0,
        infallible(schedule),
    ensures
        infallible(schedule.drop_last()),
        schedule.last().1 is Some,
{
    assert forall|k: int| 0 <= k < schedule.drop_last().len() implies (
    #[trigger] schedule.drop_last()[k]).1 is Some by {}
}

/// Exactly once: however `n` callers interleave, at most one initializer
/// succeeds and no two run at the same time. Where initializers never fail,
/// at most one is ever started, and once some caller has returned exactly
/// one has run.
pub proof fn lemma_exactly_once(n: nat, schedule: Seq<(int, Option<int>)>, i: int, j: int)
    requires
        0 <= i < n,
        0 <= j < n,
    ensures
        ({
            let w = reached(n, schedule);
            &&& w.successes <= 1
            &&& w.callers[i] is Running && w.callers[j] is Running ==> i == j
            &&& infallible(schedule) ==> w.runs <= 1
            &&& infallible(schedule) && w.callers[i] is Returned ==> w.runs == 1 && w.successes
                == 1
        }),
{
    lemma_reached_consistent(n, schedule);
    if infallible(schedule) && reached(n, schedule).callers[i] is Returned {
        lemma_returned_after_completion(n, schedule, i);
    }
}

/// A caller returns without a value only if its own initializer failed, so
/// where initializers never fail every caller that has returned holds the
/// cell's value, and the cell is complete.
pub proof fn lemma_returned_after_completion(n: nat, schedule: Seq<(int, Option<int>)>, i: int)
    requires
        0 <= i < n,
        infallible(schedule),
        reached(n, schedule).callers[i] is Returned,
    ensures
        reached(n, schedule).callers[i] == Caller::Returned(reached(n, schedule).slot),
        reached(n, schedule).slot is Some,
        reached(n, schedule).state == State::Complete,
    decreases schedule.len(),
{
    lemma_reached_consistent(n, schedule);
    if schedule.len() > 0 {
        let before = reached(n, schedule.drop_last());
        let who = schedule.last().0;
        lemma_reached_consistent(n, schedule.drop_last());
        lemma_infallible_prefix(schedule);
        if before.callers[i] is Returned {
            lemma_returned_after_completion(n, schedule.drop_last(), i);
            lemma_complete_is_final(before, who, schedule.last().1);
        }
    }
}

/// Agreement: any two callers that return a value return the same one, the
/// value in the cell.
pub proof fn lemma_agreement(
    n: nat,
    schedule: Seq<(int, Option<int>)>,
    i: int,
    j: int,
    a: int,
    b: int,
)
    requires
        0 <= i < n,
        0 <= j < n,
        reached(n, schedule).callers[i] == Caller::Returned(Some(a)),
        reached(n, schedule).callers[j] == Caller::Returned(Some(b)),
    ensures
        a == b,
        reached(n, schedule).slot == Some(a),
{
    lemma_reached_consistent(n, schedule);
}

/// No lost wakeup: a caller sleeps only while an initializer is executing,
/// and every sleeper is on the list of waiters, once. In every reachable
/// world outside an episode nobody is parked, and the step that ends an
/// episode, which resumes the callers on the list it displaces, leaves every
/// caller that was parked ready to observe again.
pub proof fn lemma_no_caller_left_parked(
    n: nat,
    schedule: Seq<(int, Option<int>)>,
    owner: int,
    outcome: Option<int>,
    k: int,
)
    requires
        0 <= owner < n,
        0 <= k < n,
    ensures
        ({
            let w = reached(n, schedule);
            &&& w.state != State::Running ==> w.callers[k] != Caller::Parked
            &&& w.callers[k] == Caller::Parked <==> w.waiting.contains(k)
            &&& w.waiting.no_duplicates()
            &&& w.callers[owner] is Running && w.callers[k] == Caller::Parked ==> step(
                w,
                owner,
                outcome,
            ).callers[k] == Caller::Start
        }),
{
    lemma_reached_consistent(n, schedule);
    let w = reached(n, schedule);
    if w.waiting.contains(k) {
        let at = choose|at: int| 0 <= at < w.waiting.len() && w.waiting[at] == k;
    }
}

/// Completion is final: in a complete world no step starts an initializer or
/// touches the state or the slot, and a caller that starts there returns the
/// cell's value after one observation.
pub proof fn lemma_complete_is_final(w: World, i: int, outcome: Option<int>)
    requires
        consistent(w),
        w.state == State::Complete,
    ensures
        step(w, i, outcome).state == State::Complete,
        step(w, i, outcome).slot == w.slot,
        step(w, i, outcome).runs == w.runs,
        0 <= i < w.callers.len() && w.callers[i] == Caller::Start ==> step(
            step(w, i, outcome),
            i,
            outcome,
        ).callers[i] == Caller::Returned(w.slot),
{
}

/// Poison and recover: after a failed initializer the cell is poisoned and
/// empty; the next caller to observe it claims the episode, is told of the
/// poison, and its success completes the cell with its value. While it runs,
/// no other caller can claim.
pub proof fn lemma_poison_and_recover(w: World, i: int, j: int, v: int)
    requires
        consistent(w),
        w.state == State::Poisoned,
        0 <= i < w.callers.len(),
        0 <= j < w.callers.len(),
        i != j,
        w.callers[i] == Caller::Start,
    ensures
        w.slot is None,
        action_for(w.state) == (Action::Claim { poisoned: true }),
        ({
            let claimed = step(step(w, i, None), i, None);
            let done = step(claimed, i, Some(v));
            &&& claimed.state == State::Running
            &&& claimed.callers[i] == (Caller::Running { poisoned: true })
            &&& !(step(claimed, j, None).callers[j] is Running)
            &&& done.state == State::Complete
            &&& done.slot == Some(v)
            &&& done.callers[i] == Caller::Returned(Some(v))
        }),
{
    let observed = step(w, i, None);
    lemma_step_consistent(w, i, None);
    lemma_step_consistent(observed, i, None);
}

/// A call that nobody interrupts is the call of a sole owner: on a complete
/// cell it returns the value and runs nothing; otherwise it runs its
/// initializer once, told of poison exactly if it found the cell poisoned,
/// returns what the initializer returned, and leaves the outcome's state and
/// value behind.
pub proof fn lemma_uninterrupted_call(w: World, i: int, outcome: Option<int>)
    requires
        consistent(w),
        0 <= i < w.callers.len(),
        w.callers[i] == Caller::Start,
        w.state != State::Running,
    ensures
        ({
            let claimed = step(step(w, i, outcome), i, outcome);
            let end = step(claimed, i, outcome);
            &&& w.state == State::Complete ==> end.callers[i] == Caller::Returned(w.slot)
                && end.state == State::Complete && end.slot == w.slot && end.runs == w.runs
            &&& w.state != State::Complete ==> claimed.callers[i] == (Caller::Running {
                poisoned: w.state == State::Poisoned,
            }) && end.callers[i] == Caller::Returned(outcome) && end.state == State::outcome(
                outcome is Some,
            ) && end.slot == outcome && end.runs == w.runs + 1
        }),
{
}

/// A failed initializer leaves the cell poisoned and empty, and its caller
/// alone returns without a value.
pub proof fn lemma_failure_poisons(w: World, i: int)
    requires
        consistent(w),
        0 <= i < w.callers.len(),
        w.callers[i] is Running,
    ensures
        step(w, i, None).state == State::Poisoned,
        step(w, i, None).slot is None,
        step(w, i, None).callers[i] == Caller::Returned(None),
        forall|k: int|
            0 <= k < w.callers.len() && k != i ==> #[trigger] step(w, i, None).callers[k]
                != Caller::Returned(None) || w.callers[k] == Caller::Returned(None),
{
}

} // verus!
