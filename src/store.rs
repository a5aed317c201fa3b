use vstd::prelude::*;

use crate::action::Action;

verus! {

/// A pure transformation from an action and a state to a new state.
pub trait Reducer<T> {
    /// Whether this reducer is defined on `state` for `action`.
    spec fn admits(&self, action: Action, state: T) -> bool;

    /// The state that this reducer computes from `action` and `state`.
    spec fn spec_reduce(&self, action: Action, state: T) -> T;

    fn reduce(&self, action: Action, state: T) -> (r: T)
        requires
            self.admits(action, state),
        ensures
            r == self.spec_reduce(action, state),
    ;
}

/// The state reached by applying `reducers`, first to last, each to the
/// output of the one before, all with the same `action`.
pub open spec fn fold_reducers<T, R: Reducer<T>>(reducers: Seq<R>, action: Action, state: T) -> T
    decreases reducers.len(),
{
    if reducers.len() == 0 {
        state
    } else {
        reducers.last().spec_reduce(action, fold_reducers(reducers.drop_last(), action, state))
    }
}

/// Whether every reducer of the chain is defined on the state that the ones
/// before it hand over.
pub open spec fn chain_admits<T, R: Reducer<T>>(reducers: Seq<R>, action: Action, state: T) -> bool
    decreases reducers.len(),
{
    reducers.len() == 0 || {
        &&& chain_admits(reducers.drop_last(), action, state)
        &&& reducers.last().admits(action, fold_reducers(reducers.drop_last(), action, state))
    }
}

/// A chain that is defined as a whole is defined on each of its prefixes.
pub proof fn lemma_chain_admits_prefix<T, R: Reducer<T>>(
    reducers: Seq<R>,
    action: Action,
    state: T,
    k: int,
)
    requires
        chain_admits(reducers, action, state),
        0 <= k <= reducers.len(),
    ensures
        chain_admits(reducers.take(k), action, state),
    decreases reducers.len(),
{
    if k == reducers.len() {
        assert(reducers.take(k) =~= reducers);
    } else {
        assert(reducers.drop_last().take(k) =~= reducers.take(k));
        lemma_chain_admits_prefix(reducers.drop_last(), action, state, k);
    }
}

/// With no reducer registered, dispatching any action leaves the state as
/// it was.
pub proof fn law_no_reducers_keep_state<T, R: Reducer<T>>(action: Action, state: T)
    ensures
        chain_admits(Seq::<R>::empty(), action, state),
        fold_reducers(Seq::<R>::empty(), action, state) == state,
{
}

/// Registering `r1` and then `r2` feeds the output of `r1` into `r2`; the
/// other order feeds the output of `r2` into `r1`; so where the two do not
/// commute on `action` and `state`, the two orders end in different states.
pub proof fn law_registration_order<T, R: Reducer<T>>(r1: R, r2: R, action: Action, state: T)
    ensures
        fold_reducers(seq![r1, r2], action, state) == r2.spec_reduce(
            action,
            r1.spec_reduce(action, state),
        ),
        fold_reducers(seq![r2, r1], action, state) == r1.spec_reduce(
            action,
            r2.spec_reduce(action, state),
        ),
        r2.spec_reduce(action, r1.spec_reduce(action, state)) != r1.spec_reduce(
            action,
            r2.spec_reduce(action, state),
        ) ==> fold_reducers(seq![r1, r2], action, state) != fold_reducers(
            seq![r2, r1],
            action,
            state,
        ),
{
    let (s12, s21, s1, s2) = (seq![r1, r2], seq![r2, r1], seq![r1], seq![r2]);
    assert(s12.drop_last() =~= s1);
    assert(s21.drop_last() =~= s2);
    assert(s1.drop_last() =~= Seq::<R>::empty());
    assert(s2.drop_last() =~= Seq::<R>::empty());
    assert(s1.last() == r1 && s2.last() == r2 && s12.last() == r2 && s21.last() == r1);
    reveal_with_fuel(fold_reducers, 3);
}

/// A state value together with the reducers, in order of registration, that
/// every dispatched action runs through.
pub struct Store<T, R> {
    state: T,
    reducers: Vec<R>,
}

impl<T: Copy, R: Reducer<T>> Store<T, R> {
    /// The state that the store holds.
    pub closed spec fn spec_state(&self) -> T {
        self.state
    }

    /// The registered reducers, in order of registration.
    pub closed spec fn reducers(&self) -> Seq<R> {
        self.reducers@
    }

    /// A store that holds `s` and no reducer.
    pub fn init(s: T) -> (r: Store<T, R>)
        ensures
            r.spec_state() == s,
            r.reducers() == Seq::<R>::empty(),
    {
        Store { state: s, reducers: Vec::new() }
    }

    /// The state that the store holds.
    pub fn state(&self) -> (r: T)
        ensures
            r == self.spec_state(),
    {
        self.state
    }

    /// Registers `reducer` after those already there; the same reducer may
    /// be registered more than once, and then runs once per registration.
    pub fn add_reducer(&mut self, reducer: R)
        ensures
            final(self).spec_state() == old(self).spec_state(),
            final(self).reducers() == old(self).reducers().push(reducer),
    {
        self.reducers.push(reducer);
    }

    /// Runs `action` through the reducers in order of registration, each one
    /// taking the state that the one before it produced.
    pub fn dispatch(&mut self, action: Action)
        requires
            chain_admits(old(self).reducers(), action, old(self).spec_state()),
        ensures
            final(self).reducers() == old(self).reducers(),
            final(self).spec_state() == fold_reducers(old(self).reducers(), action, old(self).spec_state()),
    {
        let n = self.reducers.len();
        let mut i: usize = 0;
        while i < n
            invariant
                n == self.reducers.len(),
                0 <= i <= n,
                self.reducers@ == old(self).reducers@,
                chain_admits(old(self).reducers@, action, old(self).spec_state()),
                self.state == fold_reducers(self.reducers@.take(i as int), action, old(self).spec_state()),
            decreases n - i,
        {
            proof {
                let rs = self.reducers@;
                lemma_chain_admits_prefix(rs, action, old(self).state, i + 1);
                assert(rs.take(i + 1).drop_last() =~= rs.take(i as int));
            }
            let next = self.reducers[i].reduce(action, self.state);
            self.state = next;
            proof {
                let rs = self.reducers@;
                assert(rs.take(i + 1).drop_last() =~= rs.take(i as int));
            }
            i = i + 1;
        }
        proof {
            assert(self.reducers@.take(n as int) =~= self.reducers@);
        }
    }
}

} // verus!
