//! The self-hosted backend: the lifecycle state and the head of a list of
//! waiters share one tagged word.
//!
//! A waiter node records the handle of a blocked caller, whether it has been
//! signaled, and the address of the node linked before it. Here the nodes
//! live in an arena, node `i` at address `4 * (i + 1)`, so that every node
//! address is non-null and leaves the two state bits free. Ending an episode
//! swaps the word for a bare terminal state and walks the list that the swap
//! displaced, servicing each node once.

use crate::episode::{decide, Action, Guard};
use crate::once::{once_state_for, OnceState, RawOnce};
use crate::state::State;
use crate::tagged::{aligned, packed, TaggedWord};
use vstd::prelude::*;

verus! {

/// One blocked caller.
#[derive(Clone, Copy, Debug)]
pub struct Waiter {
    /// The handle to resume the caller by; taken when the node is serviced.
    pub thread: Option<u64>,
    /// Set when the node is serviced.
    pub signaled: bool,
    /// The address of the node linked before this one, or zero.
    pub next: usize,
}

/// The address of the arena's node `i`.
pub open spec fn node_addr(i: int) -> int {
    4 * (i + 1)
}

/// What the backend is, seen from outside.
pub struct QueueView {
    /// The lifecycle state.
    pub state: State,
    /// The handles of the callers waiting, the latest arrival first.
    pub waiting: Seq<u64>,
    /// The handles resumed so far, in the order of their resumption.
    pub resumed: Seq<u64>,
}

impl QueueView {
    /// A caller arrives. It is linked in front of the list if an episode is
    /// in flight; otherwise nothing changes and the caller observes again.
    pub open spec fn enqueue(self, thread: u64) -> QueueView {
        if self.state == State::Running {
            QueueView { waiting: seq![thread] + self.waiting, ..self }
        } else {
            self
        }
    }

    /// The callers of `arrivals` arrive one after the other.
    pub open spec fn enqueue_all(self, arrivals: Seq<u64>) -> QueueView
        decreases arrivals.len(),
    {
        if arrivals.len() == 0 {
            self
        } else {
            self.enqueue(arrivals[0]).enqueue_all(arrivals.subrange(1, arrivals.len() as int))
        }
    }

    /// The episode ends: the state becomes terminal and every waiting
    /// caller is resumed, in list order.
    pub open spec fn finish(self, ok: bool) -> QueueView {
        QueueView {
            state: State::outcome(ok),
            waiting: Seq::empty(),
            resumed: self.resumed + self.waiting,
        }
    }
}

/// The word that claims the episode from an observed claimable word: the
/// same address bits under `Running`.
pub fn claim_word(observed: TaggedWord) -> (word: TaggedWord)
    ensures
        word.bits == packed(observed.addr(), State::Running),
        word.addr() == observed.addr(),
        word.tag() == State::Running,
{
    observed.with_tag(State::Running)
}

/// What a caller links when it found `observed`: its node's `next` is the
/// observed head, and the new word carries the node's address `me` under
/// the observed state.
pub fn link_word(me: usize, observed: TaggedWord) -> (linked: (usize, TaggedWord))
    requires
        aligned(me),
    ensures
        linked.0 == observed.addr(),
        linked.1.bits == packed(me, observed.tag()),
        linked.1.addr() == me,
        linked.1.tag() == observed.tag(),
{
    (observed.strip_tag(), TaggedWord::combine(me, observed.tag_of()))
}

/// After a failed attempt to link: whether to try again with the word
/// found. Only the head moved if the state is still the one expected; if
/// the state changed the episode is over and the caller starts afresh.
pub fn should_relink(expected: State, found: TaggedWord) -> (again: bool)
    ensures
        again == (found.tag() == expected),
{
    found.tag_of() == expected
}

/// The word that ends an episode: the guard's target state and no address.
pub fn terminal_word(guard: Guard) -> (word: TaggedWord)
    ensures
        word.bits == guard.target().tag(),
        word.tag() == guard.target(),
        word.addr() == 0,
{
    TaggedWord::bare(guard.finish())
}

/// The self-hosted backend.
pub struct RawQueueOnce {
    word: TaggedWord,
    nodes: Vec<Waiter>,
    serviced: usize,
    resumed: Vec<u64>,
}

impl View for RawQueueOnce {
    type V = QueueView;

    closed spec fn view(&self) -> QueueView {
        QueueView {
            state: self.word.tag(),
            waiting: Seq::new(
                (self.nodes.len() - self.serviced) as nat,
                |k: int| self.nodes@[self.nodes.len() - 1 - k].thread->0,
            ),
            resumed: self.resumed@,
        }
    }
}

impl RawQueueOnce {
    /// The tagged word.
    pub closed spec fn word(&self) -> TaggedWord {
        self.word
    }

    /// The number of nodes linked so far.
    pub closed spec fn linked(&self) -> int {
        self.nodes.len() as int
    }

    /// The number of nodes serviced so far.
    pub closed spec fn serviced_count(&self) -> int {
        self.serviced as int
    }

    /// The address of a node that has been linked.
    pub open spec fn is_node(&self, addr: usize) -> bool {
        exists|i: int| 0 <= i < self.linked() && addr == node_addr(i)
    }

    /// One more node has an address.
    pub open spec fn has_room(&self) -> bool {
        node_addr(self.linked() + 1) <= usize::MAX
    }

    /// Nodes are serviced oldest episode first; the nodes not yet serviced
    /// form the list, each linked to the one before it, and the word's
    /// address is the latest of them. Outside an episode the list is empty.
    pub closed spec fn linked_in_order(&self) -> bool {
        let len = self.nodes.len() as int;
        let base = self.serviced as int;
        &&& 0 <= base <= len
        &&& node_addr(len) <= usize::MAX
        &&& self.word.addr() == (if base == len {
            0
        } else {
            node_addr(len - 1)
        })
        &&& self.word.tag() != State::Running ==> base == len
        &&& forall|i: int|
            0 <= i < base ==> (#[trigger] self.nodes@[i]).signaled && self.nodes@[i].thread is None
        &&& forall|i: int|
            base <= i < len ==> !(#[trigger] self.nodes@[i]).signaled && self.nodes@[i].thread
                is Some && self.nodes@[i].next == (if i == base {
                0
            } else {
                node_addr(i - 1)
            })
    }

    /// The tagged word as it stands.
    pub fn observe(&self) -> (word: TaggedWord)
        requires
            self.inv(),
        ensures
            word == self.word(),
            word.tag() == self@.state,
            self@.waiting.len() == 0 <==> word.addr() == 0,
            self@.waiting.len() > 0 ==> word.addr() == node_addr(self.linked() - 1),
            self@.waiting.len() == self.linked() - self.serviced_count(),
            self@.state != State::Running ==> self@.waiting.len() == 0,
    {
        self.word
    }

    /// One attempt to claim the episode from the word that the caller
    /// observed: a single compare-and-swap to the same address under
    /// `Running`. It succeeds if the word is still the one observed and an
    /// initializer may start from its state. Otherwise nothing changes and
    /// the word found comes back.
    pub fn try_claim(&mut self, observed: TaggedWord) -> (r: Result<OnceState, TaggedWord>)
        requires
            old(self).inv(),
        ensures
            final(self).inv(),
            final(self)@.waiting == old(self)@.waiting,
            final(self)@.resumed == old(self)@.resumed,
            final(self).linked() == old(self).linked(),
            final(self).serviced_count() == old(self).serviced_count(),
            r is Ok <==> old(self).word() == observed && observed.tag().claimable(),
            r is Ok ==> r == Ok::<OnceState, TaggedWord>(once_state_for(old(self)@.state)),
            r is Ok ==> final(self)@.state == State::Running,
            r is Err ==> r == Err::<OnceState, TaggedWord>(old(self).word()),
            r is Err ==> final(self)@ == old(self)@ && final(self).word() == old(self).word(),
    {
        let once_state = match decide(observed.tag_of()) {
            Action::Claim { poisoned: false } => OnceState::new(),
            Action::Claim { poisoned: true } => OnceState::poisoned(),
            _ => return Err(self.word),
        };
        match self.exchange_word(observed, claim_word(observed)) {
            Ok(_) => Ok(once_state),
            Err(found) => Err(found),
        }
    }

    /// One attempt of the caller with handle `thread` to link its node
    /// against the word it observed: a single compare-and-swap. It succeeds
    /// if the word is still the one observed and an episode is in flight;
    /// the node is then the head of the list, linked to the head observed,
    /// and its address is returned. Otherwise nothing changes and the word
    /// found comes back; `should_relink` tells whether to try again with it.
    pub fn try_link(&mut self, observed: TaggedWord, thread: u64) -> (r: Result<usize, TaggedWord>)
        requires
            old(self).inv(),
            old(self).has_room(),
        ensures
            final(self).inv(),
            final(self).serviced_count() == old(self).serviced_count(),
            r is Ok <==> old(self).word() == observed && observed.tag() == State::Running,
            r is Ok ==> final(self)@ == old(self)@.enqueue(thread),
            r is Ok ==> old(self)@.state == State::Running,
            r is Ok ==> r == Ok::<usize, TaggedWord>(node_addr(old(self).linked()) as usize),
            r is Ok ==> final(self).linked() == old(self).linked() + 1,
            r is Ok ==> final(self).is_node(r->Ok_0),
            r is Err ==> r == Err::<usize, TaggedWord>(old(self).word()),
            r is Err ==> final(self)@ == old(self)@ && final(self).word() == old(self).word(),
            r is Err ==> final(self).linked() == old(self).linked(),
    {
        if observed.tag_of() != State::Running {
            return Err(self.word);
        }
        let len: usize = self.nodes.len();
        let me: usize = 4 * (len + 1);
        assert(me & 0x3 == 0) by (bit_vector)
            requires
                me % 4 == 0,
        ;
        let ghost before = self@;
        let (next, linked) = link_word(me, observed);
        match self.exchange_word(observed, linked) {
            Ok(_) => {
                self.nodes.push(Waiter { thread: Some(thread), signaled: false, next });
                proof {
                    assert(self@.waiting =~= seq![thread] + before.waiting);
                }
                Ok(me)
            },
            Err(found) => Err(found),
        }
    }

    /// A caller with handle `thread` arrives to wait. If no episode is in
    /// flight nothing is linked. Otherwise a node is linked in front of the
    /// list and its address is returned: the caller stays blocked until
    /// `is_signaled` holds of that address.
    ///
    /// The node is swapped in against the word observed. A swap lost because
    /// only the head moved is tried again with the new head; one lost
    /// because the state changed is given up. With the instance owned
    /// exclusively no swap is lost.
    pub fn enqueue(&mut self, thread: u64) -> (node: Option<usize>)
        requires
            old(self).inv(),
            old(self).has_room(),
        ensures
            final(self).inv(),
            final(self)@ == old(self)@.enqueue(thread),
            node is Some <==> old(self)@.state == State::Running,
            node is Some ==> node == Some(node_addr(old(self).linked()) as usize),
            node is Some ==> final(self).linked() == old(self).linked() + 1,
            node is Some ==> final(self).is_node(node->0),
            node is None ==> final(self).linked() == old(self).linked(),
            final(self).serviced_count() == old(self).serviced_count(),
    {
        let mut current = self.observe();
        let expected = current.tag_of();
        if expected != State::Running {
            return None;
        }
        loop
            invariant
                *self == *old(self),
                self.inv(),
                self.has_room(),
                current == self.word(),
                expected == State::Running,
                current.tag() == expected,
            decreases 0int,
        {
            match self.try_link(current, thread) {
                Ok(me) => return Some(me),
                Err(found) => {
                    if !should_relink(expected, found) {
                        return None;
                    }
                    current = found;
                },
            }
        }
    }

    /// Whether the node at `node` has been serviced.
    pub fn is_signaled(&self, node: usize) -> (b: bool)
        requires
            self.inv(),
            self.is_node(node),
        ensures
            b == (node <= node_addr(self.serviced_count() - 1)),
    {
        let i: usize = node / 4 - 1;
        self.nodes[i].signaled
    }

    /// The handles resumed so far, in order.
    pub fn resumed(&self) -> (handles: &Vec<u64>)
        ensures
            handles@ == self@.resumed,
    {
        &self.resumed
    }

    fn exchange_word(&mut self, current: TaggedWord, new: TaggedWord) -> (r: Result<
        TaggedWord,
        TaggedWord,
    >)
        ensures
            old(self).word == current ==> r == Ok::<TaggedWord, TaggedWord>(current),
            old(self).word == current ==> final(self).word == new,
            old(self).word != current ==> r == Err::<TaggedWord, TaggedWord>(old(self).word)
                && final(self).word == old(self).word,
            final(self).nodes == old(self).nodes,
            final(self).serviced == old(self).serviced,
            final(self).resumed == old(self).resumed,
    {
        let found = self.word;
        if found == current {
            self.word = new;
            Ok(found)
        } else {
            Err(found)
        }
    }
}

impl RawOnce for RawQueueOnce {
    open spec fn state(&self) -> State {
        self@.state
    }

    open spec fn inv(&self) -> bool {
        self.linked_in_order()
    }

    fn incomplete() -> (raw: Self)
        ensures
            raw@.waiting.len() == 0,
            raw@.resumed.len() == 0,
            raw.linked() == 0,
    {
        Self {
            word: TaggedWord::bare(State::Incomplete),
            nodes: Vec::new(),
            serviced: 0,
            resumed: Vec::new(),
        }
    }

    fn complete() -> (raw: Self)
        ensures
            raw@.waiting.len() == 0,
            raw@.resumed.len() == 0,
            raw.linked() == 0,
    {
        Self {
            word: TaggedWord::bare(State::Complete),
            nodes: Vec::new(),
            serviced: 0,
            resumed: Vec::new(),
        }
    }

    fn is_completed(&self) -> (b: bool) {
        self.word.tag_of() == State::Complete
    }

    fn try_acquire(&mut self) -> (claimed: Option<OnceState>)
        ensures
            final(self)@.waiting == old(self)@.waiting,
            final(self)@.resumed == old(self)@.resumed,
            final(self).linked() == old(self).linked(),
    {
        let mut observed = self.observe();
        loop
            invariant
                *self == *old(self),
                self.inv(),
                observed == self.word(),
                self@.state != State::Running,
            decreases 0int,
        {
            match decide(observed.tag_of()) {
                Action::Return => return None,
                Action::Wait => {
                    observed = self.observe();
                },
                Action::Claim { .. } => {
                    match self.try_claim(observed) {
                        Ok(once_state) => return Some(once_state),
                        Err(found) => {
                            observed = found;
                        },
                    }
                },
            }
        }
    }

    fn finish(&mut self, guard: Guard)
        ensures
            final(self)@ == old(self)@.finish(guard.committed()),
            final(self).linked() == old(self).linked(),
            final(self).serviced_count() == old(self).linked(),
    {
        let ghost before = self@;
        let ghost old_nodes = self.nodes@;
        let ghost base = self.serviced as int;
        let ghost len = self.nodes.len() as int;
        let ghost mut top = len;
        let displaced = self.word;
        self.word = terminal_word(guard);
        let mut waiter: usize = displaced.strip_tag();
        while waiter != 0
            invariant
                base <= top <= len,
                base == self.serviced,
                len == self.nodes.len(),
                len == old_nodes.len(),
                self.word.tag() == guard.target(),
                self.word.addr() == 0,
                forall|i: int|
                    0 <= i < base ==> (#[trigger] old_nodes[i]).signaled && old_nodes[i].thread
                        is None,
                node_addr(len) <= usize::MAX,
                waiter == (if top == base {
                    0
                } else {
                    node_addr(top - 1)
                }),
                forall|i: int| 0 <= i < top ==> self.nodes@[i] == old_nodes[i],
                forall|i: int|
                    top <= i < len ==> (#[trigger] self.nodes@[i]).signaled && self.nodes@[i].thread
                        is None,
                forall|i: int|
                    base <= i < len ==> (#[trigger] old_nodes[i]).thread is Some && old_nodes[i].next
                        == (if i == base {
                        0
                    } else {
                        node_addr(i - 1)
                    }),
                self.resumed@ == before.resumed + Seq::new(
                    (len - top) as nat,
                    |k: int| old_nodes[len - 1 - k].thread->0,
                ),
            decreases top,
        {
            let i: usize = waiter / 4 - 1;
            let node = self.nodes[i];
            assert(node == old_nodes[top - 1]);
            let next = node.next;
            let handle: u64 = node.thread.unwrap();
            self.nodes.set(i, Waiter { thread: None, signaled: true, next });
            waiter = next;
            self.resumed.push(handle);
            proof {
                top = top - 1;
                assert(self.resumed@ =~= before.resumed + Seq::new(
                    (len - top) as nat,
                    |k: int| old_nodes[len - 1 - k].thread->0,
                ));
            }
        }
        self.serviced = self.nodes.len();
        proof {
            assert forall|i: int| 0 <= i < len implies (#[trigger] self.nodes@[i]).signaled
                && self.nodes@[i].thread is None by {
                if i < base {
                    assert(self.nodes@[i] == old_nodes[i]);
                }
            }
            assert(self@.waiting =~= Seq::<u64>::empty());
        }
    }
}

/// No lost wakeup: whatever callers arrive while an episode is in flight,
/// ending the episode leaves nobody waiting and resumes every one of them
/// exactly once: the latest arrival first, then the earlier ones, then those
/// that were waiting before.
pub proof fn lemma_no_lost_wakeup(start: QueueView, arrivals: Seq<u64>, ok: bool)
    requires
        start.state == State::Running,
    ensures
        start.enqueue_all(arrivals).state == State::Running,
        start.enqueue_all(arrivals).waiting == arrivals.reverse() + start.waiting,
        start.enqueue_all(arrivals).finish(ok).waiting.len() == 0,
        start.enqueue_all(arrivals).finish(ok).resumed == start.resumed + arrivals.reverse()
            + start.waiting,
        start.enqueue_all(arrivals).finish(ok).state == State::outcome(ok),
    decreases arrivals.len(),
{
    if arrivals.len() == 0 {
        assert(start.resumed + arrivals.reverse() + start.waiting =~= start.resumed
            + start.waiting);
    } else {
        let rest = arrivals.subrange(1, arrivals.len() as int);
        let next = start.enqueue(arrivals[0]);
        lemma_no_lost_wakeup(next, rest, ok);
        assert(rest.reverse() + (seq![arrivals[0]] + start.waiting) =~= arrivals.reverse()
            + start.waiting);
        assert(start.resumed + rest.reverse() + (seq![arrivals[0]] + start.waiting)
            =~= start.resumed + arrivals.reverse() + start.waiting);
    }
}

} // verus!
