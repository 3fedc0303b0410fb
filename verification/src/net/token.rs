//! Petri net token.

use crate::net::marking::{fits, lemma_total_prefix, marked, marks_at, total, unmarked};
use crate::net::place::PlaceId;
use crate::net::{NetId, NotEnoughMarks};
use std::marker::PhantomData;
use vstd::prelude::*;
use vstd::std_specs::cmp::PartialEqSpecImpl;

verus! {

/// Petri net token. Holds the state of the net execution.
#[derive(Debug, Hash, PartialOrd, Ord)]
pub struct Token<Net: NetId> {
    marking: Vec<usize>,
    _net: PhantomData<Net>,
}

impl<Net: NetId> View for Token<Net> {
    type V = Seq<nat>;

    /// The marking: for each place of the net, by its index, how many times
    /// the token has marked it.
    closed spec fn view(&self) -> Seq<nat> {
        self.marking@.map_values(|count: usize| count as nat)
    }
}

impl<Net: NetId> Clone for Token<Net> {
    fn clone(&self) -> (token: Self)
        ensures
            token@ == self@,
    {
        let token = Token { marking: self.marking.clone(), _net: PhantomData };
        assert(token@ =~= self@);
        token
    }
}

impl<Net: NetId> PartialEq for Token<Net> {
    fn eq(&self, other: &Self) -> (equal: bool) {
        if self.marking.len() != other.marking.len() {
            assert(self@.len() != other@.len());
            return false;
        }
        let mut place: usize = 0;
        while place < self.marking.len()
            invariant
                place <= self.marking@.len(),
                self.marking@.len() == other.marking@.len(),
                forall|i: int| 0 <= i < place ==> self.marking@[i] == other.marking@[i],
            decreases self.marking@.len() - place,
        {
            if self.marking[place] != other.marking[place] {
                assert(self@[place as int] != other@[place as int]);
                return false;
            }
            place += 1;
        }
        assert(self@ =~= other@);
        true
    }
}

impl<Net: NetId> Eq for Token<Net> {}

impl<Net: NetId> PartialEqSpecImpl for Token<Net> {
    open spec fn obeys_eq_spec() -> bool {
        true
    }

    /// Two tokens are equal when they mark every place equally often.
    open spec fn eq_spec(&self, other: &Self) -> bool {
        self@ == other@
    }
}

impl<Net: NetId> Token<Net> {
    /// Returns a new token, with no mark on any of the `num_places` places.
    pub(crate) fn new(num_places: usize) -> (token: Self)
        ensures
            token@ == Seq::new(num_places as nat, |place: int| 0nat),
    {
        let marking: Vec<usize> = vec![0; num_places];
        let token = Token { marking, _net: PhantomData };
        assert(token@ =~= Seq::new(num_places as nat, |place: int| 0nat));
        token
    }

    /// Every count of a token fits in a `usize`.
    pub proof fn lemma_fits(&self)
        ensures
            fits(self@),
    {
    }

    /// Returns the number of places that the token has a count for: those of
    /// its net when it was spawned.
    pub fn num_places(&self) -> (places: usize)
        ensures
            places == self@.len(),
    {
        self.marking.len()
    }

    /// Returns the total number of markings by a token.
    pub fn total_marks(&self) -> (sum: usize)
        requires
            total(self@) <= usize::MAX,
        ensures
            sum == total(self@),
    {
        let mut sum: usize = 0;
        let mut place: usize = 0;
        while place < self.marking.len()
            invariant
                place <= self.marking@.len(),
                sum == total(self@.take(place as int)),
                total(self@) <= usize::MAX,
            decreases self.marking@.len() - place,
        {
            proof {
                lemma_total_prefix(self@, place as int + 1);
                assert(self@.take(place as int + 1).drop_last() =~= self@.take(place as int));
            }
            sum = sum + self.marking[place];
            place += 1;
        }
        assert(self@.take(place as int) =~= self@);
        sum
    }

    /// Returns the number of times the token has marked a place: zero for a
    /// place that it never marked.
    pub fn marks_by_id(&self, place: PlaceId<Net>) -> (marks: usize)
        ensures
            marks == marks_at(self@, place@),
    {
        let index = place.index();
        if index < self.marking.len() {
            self.marking[index]
        } else {
            0
        }
    }

    /// Marks a place with this token `n` times.
    pub fn mark_by_id(&mut self, place: PlaceId<Net>, n: usize)
        requires
            place@ < old(self)@.len(),
            old(self)@[place@ as int] + n <= usize::MAX,
        ensures
            final(self)@ == marked(old(self)@, place@, n as nat),
    {
        let index = place.index();
        let marks = self.marking[index];
        self.marking.set(index, marks + n);
        assert(self@ =~= marked(old(self)@, place@, n as nat));
    }

    /// Undoes `n` markings of a place by this token.
    ///
    /// Returns [`NotEnoughMarks`] if the place has fewer than `n` marks; the
    /// token is then left as it was.
    pub fn unmark_by_id(&mut self, place: PlaceId<Net>, n: usize) -> (outcome: Result<
        (),
        NotEnoughMarks<Net>,
    >)
        ensures
            n <= marks_at(old(self)@, place@) ==> outcome is Ok,
            n > marks_at(old(self)@, place@) ==> (outcome matches Err(error) && error.0 == place),
            final(self)@ == unmarked(old(self)@, place@, n as nat),
    {
        let index = place.index();
        if index < self.marking.len() {
            let marks = self.marking[index];
            if marks >= n {
                self.marking.set(index, marks - n);
                assert(self@ =~= unmarked(old(self)@, place@, n as nat));
                Ok(())
            } else {
                Err(NotEnoughMarks(place))
            }
        } else if n == 0 {
            Ok(())
        } else {
            Err(NotEnoughMarks(place))
        }
    }
}

} // verus!
