//! Places and transitions addressed by their kinds: the Rust types that they
//! were registered for.

use crate::net::arcs::Arcs;
use crate::net::kind::KindView;
use crate::net::marking::{marked, marks_at, unmarked};
use crate::net::model::NetView;
use crate::net::place::{Place, PlaceId, PlaceMetadata};
use crate::net::token::Token;
use crate::net::trans::{Trans, TransId, TransMetadata};
use crate::net::{kind_arcs, place, trans, BuildError, NetId, NotEnabled, NotEnoughMarks, PetriNet};
use std::any::TypeId;
use vstd::prelude::*;

verus! {

impl NetView {
    /// The marks of the place that `kind` stands for, if it is a place of
    /// the net.
    pub open spec fn marks_of(self, kind: TypeId, marking: Seq<nat>) -> Option<nat> {
        match self.places.lookup(kind) {
            Some(place) => Some(marks_at(marking, place)),
            None => None,
        }
    }

    /// Whether the transition that `kind` stands for is enabled, if it is a
    /// transition of the net.
    pub open spec fn enabled_of(self, kind: TypeId, marking: Seq<nat>) -> Option<bool> {
        match self.transitions.lookup(kind) {
            Some(trans) => Some(self.enabled(trans, marking)),
            None => None,
        }
    }

    /// An attempt to fire the transition that `kind` stands for. Nothing is
    /// done where it is no transition of the net, where the marking is not
    /// one of the net's places, or where firing it is not sound. Else the
    /// marking is what the attempt leaves, with the transition as the error
    /// where it was not enabled.
    pub open spec fn fire_of(self, kind: TypeId, marking: Seq<nat>) -> (
        Option<Result<(), nat>>,
        Seq<nat>,
    ) {
        match self.transitions.lookup(kind) {
            Some(trans) => if marking.len() == self.places.len() && self.fires_soundly(
                trans,
                marking,
            ) {
                (
                    Some(
                        if self.enabled(trans, marking) {
                            Ok(())
                        } else {
                            Err(trans)
                        },
                    ),
                    self.fire(trans, marking),
                )
            } else {
                (None, marking)
            },
            None => (None, marking),
        }
    }

    /// Marking the place that `kind` stands for `n` times. Nothing is done
    /// where it is no place of the net, where the marking does not reach the
    /// place, or where the count would outgrow a `usize`.
    pub open spec fn mark_of(self, kind: TypeId, marking: Seq<nat>, n: nat) -> (
        Option<()>,
        Seq<nat>,
    ) {
        match self.places.lookup(kind) {
            Some(place) => if place < marking.len() && marking[place as int] + n <= usize::MAX {
                (Some(()), marked(marking, place, n))
            } else {
                (None, marking)
            },
            None => (None, marking),
        }
    }

    /// Taking `n` marks from the place that `kind` stands for: nothing where
    /// it is no place of the net; else the marking after the attempt, and the
    /// place as the error where it held fewer than `n`.
    pub open spec fn unmark_of(self, kind: TypeId, marking: Seq<nat>, n: nat) -> (
        Option<Result<(), nat>>,
        Seq<nat>,
    ) {
        match self.places.lookup(kind) {
            Some(place) => (
                Some(
                    if n <= marks_at(marking, place) {
                        Ok(())
                    } else {
                        Err(place)
                    },
                ),
                unmarked(marking, place, n),
            ),
            None => (None, marking),
        }
    }
}

impl<Net: NetId> PetriNet<Net> {
    /// Adds a [`Place`] to the net.
    ///
    /// Returns the identifier to the place.
    ///
    /// Refused if the place has already been registered with this net; the
    /// net is then left as it was.
    pub fn add_place<P: Place<Net>>(&mut self) -> (outcome: Result<PlaceId<Net>, BuildError>)
        requires
            old(self).wf(),
        ensures
            final(self).wf(),
            exists|record: KindView|
                record.kind is Some && #[trigger] old(self)@.built(
                    old(self)@.add_place(record),
                    old(self)@.places.len(),
                    place::indexed(outcome),
                    final(self)@,
                ),
    {
        let meta = PlaceMetadata::new::<P>();
        let ghost record = meta@;
        let outcome = self.add_place_erased(meta);
        assert(old(self)@.built(
            old(self)@.add_place(record),
            old(self)@.places.len(),
            place::indexed(outcome),
            self@,
        ));
        outcome
    }

    /// Adds a [`Trans`] and its input and output [`Arcs`] to the net.
    ///
    /// Returns the identifier to the transition.
    ///
    /// Refused if the transition has already been registered with this net,
    /// and else if any input or output place is not registered with the net;
    /// the net is then left as it was.
    pub fn add_trans<T: Trans<Net>, Inflows: Arcs<Net>, Outflows: Arcs<Net>>(&mut self) -> (outcome:
        Result<TransId<Net>, BuildError>)
        requires
            old(self).wf(),
        ensures
            final(self).wf(),
            exists|record: KindView, inflows: Seq<(KindView, nat)>, outflows: Seq<(KindView, nat)>|
                record.kind is Some && weighted(inflows, Inflows::weights()) && weighted(
                    outflows,
                    Outflows::weights(),
                ) && #[trigger] old(self)@.built(
                    old(self)@.add_trans(record, inflows, outflows),
                    old(self)@.transitions.len(),
                    trans::indexed(outcome),
                    final(self)@,
                ),
    {
        let meta = TransMetadata::new::<T>();
        let inflows = Inflows::erased();
        let outflows = Outflows::erased();
        let ghost record = meta@;
        let ghost ins = kind_arcs(inflows@);
        let ghost outs = kind_arcs(outflows@);
        let outcome = self.add_trans_erased(meta, inflows, outflows);
        assert(weighted(ins, Inflows::weights()));
        assert(weighted(outs, Outflows::weights()));
        assert(old(self)@.built(
            old(self)@.add_trans(record, ins, outs),
            old(self)@.transitions.len(),
            trans::indexed(outcome),
            self@,
        ));
        outcome
    }

    /// Returns the identifier and the metadata of a [`Place`], if it has been
    /// registered with this net.
    pub fn place<P: Place<Net>>(&self) -> (found: Option<(PlaceId<Net>, &PlaceMetadata<Net>)>)
        requires
            self.wf(),
        ensures
            exists|kind: TypeId| place_found(found) == #[trigger] self@.places.lookup(kind),
            found matches Some(place) ==> place.1@ == self@.places.records[place.0@ as int],
    {
        let id = self.places.id::<P>();
        proof {
            let kind = choose|kind: TypeId|
                place::found_index(id) == #[trigger] self@.places.lookup(kind);
            assert(id is Some ==> self@.places.has_kind(kind));
        }
        let found = match id {
            Some(id) => Some((id, self.places.metadata(id))),
            None => None,
        };
        assert(place_found(found) == place::found_index(id));
        found
    }

    /// Returns the identifier and the metadata of a [`Trans`], if it has
    /// been registered with this net.
    pub fn trans<T: Trans<Net>>(&self) -> (found: Option<(TransId<Net>, &TransMetadata<Net>)>)
        requires
            self.wf(),
        ensures
            exists|kind: TypeId| trans_found(found) == #[trigger] self@.transitions.lookup(kind),
            found matches Some(trans) ==> trans.1@ == self@.transitions.records[trans.0@ as int],
    {
        let id = self.transitions.id::<T>();
        proof {
            let kind = choose|kind: TypeId|
                trans::found_index(id) == #[trigger] self@.transitions.lookup(kind);
            assert(id is Some ==> self@.transitions.has_kind(kind));
        }
        let found = match id {
            Some(id) => Some((id, self.transitions.metadata(id))),
            None => None,
        };
        assert(trans_found(found) == trans::found_index(id));
        found
    }

    /// Returns the number of times a [`Place`] has been marked by a token.
    ///
    /// Returns `None` if the place has not been registered with this net.
    pub fn marks<P: Place<Net>>(&self, token: &Token<Net>) -> (marks: Option<usize>)
        requires
            self.wf(),
        ensures
            exists|kind: TypeId| counted(marks) == #[trigger] self@.marks_of(kind, token@),
    {
        let found = self.place::<P>();
        let ghost kind = choose|kind: TypeId|
            place_found(found) == #[trigger] self@.places.lookup(kind);
        let marks = match found {
            Some((place, _)) => Some(self.marks_by_id(place, token)),
            None => None,
        };
        assert(counted(marks) == self@.marks_of(kind, token@));
        marks
    }

    /// Returns whether a [`Trans`] is enabled.
    ///
    /// Returns `None` if the transition has not been registered with this
    /// net.
    pub fn enabled<T: Trans<Net>>(&self, token: &Token<Net>) -> (enabled: Option<bool>)
        requires
            self.wf(),
        ensures
            exists|kind: TypeId| enabled == #[trigger] self@.enabled_of(kind, token@),
    {
        let found = self.trans::<T>();
        let ghost kind = choose|kind: TypeId|
            trans_found(found) == #[trigger] self@.transitions.lookup(kind);
        let enabled = match found {
            Some((trans, _)) => Some(self.enabled_by_id(trans, token)),
            None => None,
        };
        assert(enabled == self@.enabled_of(kind, token@));
        enabled
    }

    /// Fires a [`Trans`].
    ///
    /// Returns [`NotEnabled`] if the transition is not enabled.
    ///
    /// Returns `None`, and leaves the token as it was, if the transition has
    /// not been registered with this net, if the token is not one of this
    /// net, or if firing the transition is not sound (see
    /// [`PetriNet::fires_soundly_by_id`]).
    pub fn fire<T: Trans<Net>>(&self, token: &mut Token<Net>) -> (outcome: Option<
        Result<(), NotEnabled<Net>>,
    >)
        requires
            self.wf(),
        ensures
            exists|kind: TypeId|
                (not_enabled(outcome), final(token)@) == #[trigger] self@.fire_of(
                    kind,
                    old(token)@,
                ),
    {
        let found = self.trans::<T>();
        let ghost kind = choose|kind: TypeId|
            trans_found(found) == #[trigger] self@.transitions.lookup(kind);
        let outcome = match found {
            Some((trans, _)) => {
                assert(self@.transitions.has_kind(kind));
                if token.num_places() == self.num_places() && self.fires_soundly_by_id(
                    trans,
                    token,
                ) {
                    Some(self.fire_by_id(trans, token))
                } else {
                    None
                }
            },
            None => None,
        };
        assert((not_enabled(outcome), token@) == self@.fire_of(kind, old(token)@));
        outcome
    }

    /// Marks a [`Place`] with this token `n` times.
    ///
    /// Returns `None`, and leaves the token as it was, if the place has not
    /// been registered with this net, if the token is not one that reaches
    /// the place, or if the count of the place would outgrow a `usize`.
    pub fn mark<P: Place<Net>>(&self, token: &mut Token<Net>, n: usize) -> (outcome: Option<()>)
        requires
            self.wf(),
        ensures
            exists|kind: TypeId|
                (outcome, final(token)@) == #[trigger] self@.mark_of(
                    kind,
                    old(token)@,
                    n as nat,
                ),
    {
        let found = self.place::<P>();
        let ghost kind = choose|kind: TypeId|
            place_found(found) == #[trigger] self@.places.lookup(kind);
        let outcome = match found {
            Some((place, _)) => {
                if place.index() < token.num_places() && n <= usize::MAX - self.marks_by_id(
                    place,
                    token,
                ) {
                    self.mark_by_id(place, token, n);
                    Some(())
                } else {
                    None
                }
            },
            None => None,
        };
        assert((outcome, token@) == self@.mark_of(kind, old(token)@, n as nat));
        outcome
    }

    /// Undoes `n` markings of a [`Place`] by this token.
    ///
    /// Returns [`NotEnoughMarks`] if the place does not have enough tokens to
    /// be unmarked; the token is then left as it was.
    ///
    /// Returns `None`, and leaves the token as it was, if the place has not
    /// been registered with this net.
    pub fn unmark<P: Place<Net>>(&self, token: &mut Token<Net>, n: usize) -> (outcome: Option<
        Result<(), NotEnoughMarks<Net>>,
    >)
        requires
            self.wf(),
        ensures
            exists|kind: TypeId|
                (not_enough(outcome), final(token)@) == #[trigger] self@.unmark_of(
                    kind,
                    old(token)@,
                    n as nat,
                ),
    {
        let found = self.place::<P>();
        let ghost kind = choose|kind: TypeId|
            place_found(found) == #[trigger] self@.places.lookup(kind);
        let outcome = match found {
            Some((place, _)) => Some(self.unmark_by_id(place, token, n)),
            None => None,
        };
        assert((not_enough(outcome), token@) == self@.unmark_of(kind, old(token)@, n as nat));
        outcome
    }
}

/// The place that a lookup found, as its index.
pub open spec fn place_found<Net: NetId>(
    found: Option<(PlaceId<Net>, &PlaceMetadata<Net>)>,
) -> Option<nat> {
    match found {
        Some(place) => Some(place.0@),
        None => None,
    }
}

/// The transition that a lookup found, as its index.
pub open spec fn trans_found<Net: NetId>(
    found: Option<(TransId<Net>, &TransMetadata<Net>)>,
) -> Option<nat> {
    match found {
        Some(trans) => Some(trans.0@),
        None => None,
    }
}

/// A count of marks as a number.
pub open spec fn counted(marks: Option<usize>) -> Option<nat> {
    match marks {
        Some(count) => Some(count as nat),
        None => None,
    }
}

/// The outcome of an attempt to fire a transition by its kind, with the
/// transition that was not enabled as its index.
pub open spec fn not_enabled<Net: NetId>(outcome: Option<Result<(), NotEnabled<Net>>>) -> Option<
    Result<(), nat>,
> {
    match outcome {
        Some(Ok(())) => Some(Ok(())),
        Some(Err(error)) => Some(Err(error.0@)),
        None => None,
    }
}

/// The outcome of an attempt to unmark a place by its kind, with the place
/// that had not enough marks as its index.
pub open spec fn not_enough<Net: NetId>(
    outcome: Option<Result<(), NotEnoughMarks<Net>>>,
) -> Option<Result<(), nat>> {
    match outcome {
        Some(Ok(())) => Some(Ok(())),
        Some(Err(error)) => Some(Err(error.0@)),
        None => None,
    }
}

/// The arcs have the weights `weights`, in their order, and each of them
/// names its place by a kind.
pub open spec fn weighted(arcs: Seq<(KindView, nat)>, weights: Seq<nat>) -> bool {
    &&& arcs.len() == weights.len()
    &&& forall|i: int|
        0 <= i < arcs.len() ==> (#[trigger] arcs[i]).0.kind is Some && arcs[i].1 == weights[i]
}

} // verus!
