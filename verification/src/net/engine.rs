//! Firing transitions in batches: one pass over all the transitions of a
//! net, and firing for as long as a transition is enabled.

use crate::net::trans::TransId;
use crate::net::token::Token;
use crate::net::model::NetView;
use crate::net::{NetId, PetriNet};
use vstd::prelude::*;

verus! {

impl NetView {
    /// The marking after one pass visited the transitions before `upto`, in
    /// ascending order, and fired each of them that was enabled when it was
    /// visited.
    pub open spec fn pass(self, marking: Seq<nat>, upto: nat) -> Seq<nat>
        decreases upto,
    {
        if upto == 0 {
            marking
        } else {
            self.fire((upto - 1) as nat, self.pass(marking, (upto - 1) as nat))
        }
    }

    /// The transitions before `upto` that the pass fired, in ascending order.
    pub open spec fn pass_fired(self, marking: Seq<nat>, upto: nat) -> Seq<nat>
        decreases upto,
    {
        if upto == 0 {
            Seq::empty()
        } else {
            let last = (upto - 1) as nat;
            if self.enabled(last, self.pass(marking, last)) {
                self.pass_fired(marking, last).push(last)
            } else {
                self.pass_fired(marking, last)
            }
        }
    }

    /// Every attempt of the pass to fire a transition before `upto` is
    /// sound.
    pub open spec fn pass_sound(self, marking: Seq<nat>, upto: nat) -> bool {
        forall|trans: nat|
            trans < upto ==> #[trigger] self.fires_soundly(trans, self.pass(marking, trans))
    }

    /// The first transition from `from` on that is enabled, or the number of
    /// transitions where there is none.
    pub open spec fn next_enabled(self, marking: Seq<nat>, from: nat) -> nat
        decreases self.flows.len() - from,
    {
        if from >= self.flows.len() {
            self.flows.len()
        } else if self.enabled(from, marking) {
            from
        } else {
            self.next_enabled(marking, from + 1)
        }
    }

    /// No transition is enabled.
    pub open spec fn dead(self, marking: Seq<nat>) -> bool {
        forall|trans: nat| trans < self.flows.len() ==> !#[trigger] self.enabled(trans, marking)
    }

    /// The marking after the first enabled transition fired, again and
    /// again, until none was enabled or `limit` had fired.
    pub open spec fn run(self, marking: Seq<nat>, limit: nat) -> Seq<nat>
        decreases limit,
    {
        let first = self.next_enabled(marking, 0);
        if limit == 0 || first >= self.flows.len() {
            marking
        } else {
            self.run(self.fire(first, marking), (limit - 1) as nat)
        }
    }

    /// How many transitions fired in [`NetView::run`].
    pub open spec fn run_steps(self, marking: Seq<nat>, limit: nat) -> nat
        decreases limit,
    {
        let first = self.next_enabled(marking, 0);
        if limit == 0 || first >= self.flows.len() {
            0
        } else {
            1 + self.run_steps(self.fire(first, marking), (limit - 1) as nat)
        }
    }

    /// Every firing in [`NetView::run`] is sound.
    pub open spec fn run_sound(self, marking: Seq<nat>, limit: nat) -> bool
        decreases limit,
    {
        let first = self.next_enabled(marking, 0);
        if limit == 0 || first >= self.flows.len() {
            true
        } else {
            self.fires_soundly(first, marking) && self.run_sound(
                self.fire(first, marking),
                (limit - 1) as nat,
            )
        }
    }

    /// Where no transition before `from` is enabled, the first enabled
    /// transition is the first from `from` on.
    pub proof fn lemma_next_enabled_skips(self, marking: Seq<nat>, from: nat)
        requires
            from <= self.flows.len(),
            forall|trans: nat| trans < from ==> !#[trigger] self.enabled(trans, marking),
        ensures
            self.next_enabled(marking, 0) == self.next_enabled(marking, from),
        decreases from,
    {
        if from > 0 {
            self.lemma_next_enabled_skips(marking, (from - 1) as nat);
        }
    }

    /// A transition is fired at most once in a pass, and those that fired come
    /// in ascending order.
    pub proof fn lemma_pass_fired_ascending(self, marking: Seq<nat>, upto: nat)
        ensures
            forall|i: int|
                0 <= i < self.pass_fired(marking, upto).len() ==> #[trigger] self.pass_fired(
                    marking,
                    upto,
                )[i] < upto,
            forall|i: int, j: int|
                0 <= i < j < self.pass_fired(marking, upto).len() ==> #[trigger] self.pass_fired(
                    marking,
                    upto,
                )[i] < #[trigger] self.pass_fired(marking, upto)[j],
        decreases upto,
    {
        if upto > 0 {
            let last = (upto - 1) as nat;
            let earlier = self.pass_fired(marking, last);
            let all = self.pass_fired(marking, upto);
            self.lemma_pass_fired_ascending(marking, last);
            assert forall|i: int| 0 <= i < all.len() implies #[trigger] all[i] < upto by {
                if i < earlier.len() {
                    assert(all[i] == earlier[i]);
                }
            }
            assert forall|i: int, j: int| 0 <= i < j < all.len() implies #[trigger] all[i]
                < #[trigger] all[j] by {
                assert(all[i] == earlier[i]);
                if j < earlier.len() {
                    assert(all[j] == earlier[j]);
                }
            }
        }
    }
}

/// The indices of the transitions that a list of identifiers names.
pub open spec fn trans_indices<Net: NetId>(ids: Seq<TransId<Net>>) -> Seq<nat> {
    ids.map_values(|id: TransId<Net>| id@)
}

impl<Net: NetId> PetriNet<Net> {
    /// Fires, in one pass over the transitions of the net in ascending order
    /// of their identifiers, each transition that is enabled when the pass
    /// comes to it. A transition that an earlier firing of the same pass
    /// enabled is not visited again.
    ///
    /// Returns the transitions that fired, in ascending order.
    pub fn fire_all(&self, token: &mut Token<Net>) -> (fired: Vec<TransId<Net>>)
        requires
            self.wf(),
            old(token)@.len() == self@.places.len(),
            self@.pass_sound(old(token)@, self@.transitions.len()),
        ensures
            final(token)@ == self@.pass(old(token)@, self@.transitions.len()),
            trans_indices(fired@) == self@.pass_fired(old(token)@, self@.transitions.len()),
    {
        let mut fired: Vec<TransId<Net>> = Vec::new();
        let count = self.num_transitions();
        let mut index: usize = 0;
        assert(trans_indices(fired@) =~= self@.pass_fired(token@, 0));
        while index < count
            invariant
                self.wf(),
                index <= count,
                count == self@.transitions.len(),
                token@.len() == self@.places.len(),
                self@.pass_sound(old(token)@, count as nat),
                token@ == self@.pass(old(token)@, index as nat),
                trans_indices(fired@) == self@.pass_fired(old(token)@, index as nat),
            decreases count - index,
        {
            let trans = TransId::new(index);
            assert(self@.fires_soundly(index as nat, self@.pass(old(token)@, index as nat)));
            let ghost before = trans_indices(fired@);
            if self.fire_by_id(trans, token).is_ok() {
                fired.push(trans);
                assert(trans_indices(fired@) =~= before.push(index as nat));
            }
            index += 1;
        }
        fired
    }

    /// Returns the first transition, in ascending order of the identifiers,
    /// that is enabled, if there is one.
    pub fn first_enabled(&self, token: &Token<Net>) -> (found: Option<TransId<Net>>)
        requires
            self.wf(),
        ensures
            match found {
                Some(trans) => trans@ < self@.transitions.len() && trans@ == self@.next_enabled(
                    token@,
                    0,
                ),
                None => self@.next_enabled(token@, 0) == self@.transitions.len() && self@.dead(
                    token@,
                ),
            },
    {
        let count = self.num_transitions();
        let mut index: usize = 0;
        while index < count
            invariant
                self.wf(),
                index <= count,
                count == self@.transitions.len(),
                forall|trans: nat| trans < index ==> !#[trigger] self@.enabled(trans, token@),
            decreases count - index,
        {
            let trans = TransId::new(index);
            if self.enabled_by_id(trans, token) {
                proof {
                    self@.lemma_next_enabled_skips(token@, index as nat);
                }
                return Some(trans);
            }
            index += 1;
        }
        proof {
            self@.lemma_next_enabled_skips(token@, count as nat);
        }
        None
    }

    /// Fires the first transition that is enabled, in ascending order of the
    /// identifiers, again and again: until no transition is enabled, or
    /// until `limit` transitions have fired. On a net whose transitions
    /// enable one another without end, only the limit ends the firing.
    ///
    /// Returns the number of transitions that fired. Where it is less than
    /// `limit`, no transition is enabled any more.
    pub fn fire_while(&self, token: &mut Token<Net>, limit: usize) -> (steps: usize)
        requires
            self.wf(),
            old(token)@.len() == self@.places.len(),
            self@.run_sound(old(token)@, limit as nat),
        ensures
            final(token)@ == self@.run(old(token)@, limit as nat),
            steps == self@.run_steps(old(token)@, limit as nat),
            steps < limit ==> self@.dead(final(token)@),
    {
        let mut steps: usize = 0;
        while steps < limit
            invariant
                self.wf(),
                steps <= limit,
                token@.len() == self@.places.len(),
                self@.run_sound(token@, (limit - steps) as nat),
                self@.run(old(token)@, limit as nat) == self@.run(token@, (limit - steps) as nat),
                self@.run_steps(old(token)@, limit as nat) == steps + self@.run_steps(
                    token@,
                    (limit - steps) as nat,
                ),
            decreases limit - steps,
        {
            match self.first_enabled(token) {
                Some(trans) => {
                    let _ = self.fire_by_id(trans, token);
                    steps += 1;
                },
                None => {
                    return steps;
                },
            }
        }
        steps
    }
}

} // verus!
