use vstd::prelude::*;
use crate::state::State;

verus! {

/// One access to the store: a read, or a write of a new state.
#[derive(Clone, Copy, Debug, PartialEq, Eq, Structural)]
pub enum Access {
    Read,
    Write(State),
}

/// The state that the store holds when the process starts.
pub open spec fn initial_state() -> State {
    State::Inactive
}

/// The state held after one access to a store that held `current`.
pub open spec fn after_access(current: State, a: Access) -> State {
    match a {
        Access::Read => current,
        Access::Write(s) => s,
    }
}

/// The state held after a history of accesses, in the order the lock
/// admitted them, starting from the initial state.
pub open spec fn state_after(history: Seq<Access>) -> State
    decreases history.len(),
{
    if history.len() == 0 {
        initial_state()
    } else {
        after_access(state_after(history.drop_last()), history.last())
    }
}

/// What the access at position `i` of a history reads: the state held
/// after all the accesses before it.
pub open spec fn observed_at(history: Seq<Access>, i: int) -> State {
    state_after(history.take(i))
}

/// The store of the flag. Every access goes through it; the program
/// around it serialises accesses with one lock, so the accesses form
/// one history.
pub struct StateStore {
    current: State,
    history: Ghost<Seq<Access>>,
}

impl View for StateStore {
    type V = State;

    closed spec fn view(&self) -> State {
        self.current
    }
}

impl StateStore {
    /// The accesses that this store has served, oldest first.
    pub closed spec fn history(&self) -> Seq<Access> {
        self.history@
    }

    /// The held state is the one that the history of accesses leads to.
    pub closed spec fn wf(&self) -> bool {
        self.current == state_after(self.history@)
    }

    /// A store as it is at process start.
    pub fn new() -> (r: StateStore)
        ensures
            r.wf(),
            r.history() == Seq::<Access>::empty(),
            r@ == initial_state(),
    {
        StateStore { current: State::Inactive, history: Ghost(Seq::empty()) }
    }

    /// The current state.
    pub fn read(&self) -> (r: State)
        requires
            self.wf(),
        ensures
            r == self@,
            r == state_after(self.history()),
    {
        self.current
    }

    /// Replaces the current state.
    pub fn write(&mut self, new_state: State)
        requires
            old(self).wf(),
        ensures
            final(self).wf(),
            final(self).history() == old(self).history().push(Access::Write(new_state)),
            final(self)@ == after_access(old(self)@, Access::Write(new_state)),
            final(self)@ == new_state,
    {
        self.current = new_state;
        self.history = Ghost(self.history@.push(Access::Write(new_state)));
        proof {
            assert(self.history@.drop_last() =~= old(self).history@);
        }
    }
}

/// A history of reads alone, from process start, holds the initial state
/// throughout: every read in it observes `Inactive`.
pub proof fn reads_alone_observe_initial(history: Seq<Access>)
    requires
        forall|i: int| 0 <= i < history.len() ==> history[i] == Access::Read,
    ensures
        forall|i: int| 0 <= i <= history.len() ==> #[trigger] observed_at(history, i) == State::Inactive,
        state_after(history) == State::Inactive,
    decreases history.len(),
{
    if history.len() > 0 {
        let front = history.drop_last();
        reads_alone_observe_initial(front);
        assert forall|i: int| 0 <= i <= history.len() implies #[trigger] observed_at(history, i)
            == State::Inactive by {
            if i < history.len() {
                assert(history.take(i) == front.take(i));
                assert(observed_at(front, i) == State::Inactive);
            } else {
                assert(history.take(i) == history);
            }
        }
    } else {
        assert forall|i: int| 0 <= i <= history.len() implies #[trigger] observed_at(history, i)
            == State::Inactive by {
            assert(history.take(i) == history);
        }
    }
}

/// A read that immediately follows a write of `s` observes `s`, whatever
/// came before.
pub proof fn read_after_write_observes_it(history: Seq<Access>, s: State)
    ensures
        observed_at(history.push(Access::Write(s)).push(Access::Read), history.len() + 1 as int) == s,
{
    let h = history.push(Access::Write(s)).push(Access::Read);
    assert(h.take(history.len() + 1 as int) == history.push(Access::Write(s)));
    assert(history.push(Access::Write(s)).drop_last() == history);
}

/// Every read observes a state that was there: the initial one, or one
/// that an earlier access of the same history wrote.
pub proof fn reads_observe_written_states(history: Seq<Access>, i: int)
    requires
        0 <= i <= history.len(),
    ensures
        observed_at(history, i) == initial_state()
            || exists|j: int| 0 <= j < i && history[j] == Access::Write(observed_at(history, i)),
    decreases i,
{
    if i > 0 {
        let prefix = history.take(i);
        assert(prefix.drop_last() == history.take(i - 1));
        assert(prefix.last() == history[i - 1]);
        match history[i - 1] {
            Access::Read => {
                reads_observe_written_states(history, i - 1);
                if observed_at(history, i) != initial_state() {
                    let j = choose|j: int|
                        0 <= j < i - 1 && history[j] == Access::Write(observed_at(history, i - 1));
                    assert(0 <= j < i && history[j] == Access::Write(observed_at(history, i)));
                }
            },
            Access::Write(s) => {
                assert(history[i - 1] == Access::Write(observed_at(history, i)));
            },
        }
    } else {
        assert(history.take(i) =~= Seq::<Access>::empty());
    }
}

} // verus!
