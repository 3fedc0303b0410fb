//! Petri net.

use crate::net::kind::KindView;
use crate::net::marking::{
    consumed, covered, fired, fits, in_range, lemma_consumed_step, lemma_covered_prefix,
    lemma_produced_step, lemma_weight_at_prefix, lemma_weight_at_step, marked, marks_at, produced,
    total, total_weight, unmarked, untouched, weight_at, ArcView, TransView,
};
use crate::net::model::NetView;
use crate::net::place::{PlaceId, PlaceMetadata, Places};
use crate::net::token::Token;
use crate::net::trans::{
    inflow_arcs, outflow_arcs, Flows, Inflow, Outflow, TransId, TransMetadata, Transitions,
};
use vstd::prelude::*;

pub mod arcs;
pub mod by_kind;
pub mod engine;
pub mod kind;
pub mod marking;
pub mod model;
pub mod place;
pub mod token;
pub mod trans;

verus! {

/// Label for a Petri net.
///
/// Identifiers and tokens carry the label of their net in their type, so that
/// those of two nets with different labels cannot be mixed up.
pub trait NetId: Send + Sync + 'static {}

/// Numbered [`NetId`] for convenience.
#[derive(Clone, Copy, Debug, PartialEq, Eq, PartialOrd, Ord, Hash)]
pub enum Nn<const N: usize> {
    /// The only value of the label.
    Label,
}

impl<const N: usize> NetId for Nn<N> {}

/// Why a registration with a net was refused.
#[derive(Clone, Copy, Debug, PartialEq, Eq, Structural)]
pub enum BuildError {
    /// The place or transition kind is already registered with the net.
    DuplicateRegistration,
    /// An arc names a place that is not registered with the net.
    UnknownPlace,
}

/// Error signifying that the place did not have enough tokens to be unmarked.
#[derive(Debug)]
pub struct NotEnoughMarks<Net: NetId>(pub PlaceId<Net>);

/// Error signifying that the transition was not enabled.
#[derive(Debug)]
pub struct NotEnabled<Net: NetId>(pub TransId<Net>);

/// Petri net.
#[derive(Debug)]
pub struct PetriNet<Net: NetId> {
    places: Places<Net>,
    transitions: Transitions<Net>,
    flows: Flows<Net>,
}

impl<Net: NetId> View for PetriNet<Net> {
    type V = NetView;

    closed spec fn view(&self) -> NetView {
        NetView {
            places: self.places@,
            transitions: self.transitions@,
            flows: Seq::new(
                self.flows@.inflows.len(),
                |trans: int|
                    TransView {
                        inflows: self.flows@.inflows[trans],
                        outflows: self.flows@.outflows[trans],
                    },
            ),
        }
    }
}

impl<Net: NetId> Default for PetriNet<Net> {
    fn default() -> (net: Self)
        ensures
            net.wf(),
            net@ == NetView::empty(),
    {
        PetriNet::new()
    }
}

impl<Net: NetId> PetriNet<Net> {
    /// The net is sound. Every net that this library hands out is, and every
    /// operation keeps it so.
    pub closed spec fn wf(&self) -> bool {
        &&& self@.wf()
        &&& self.flows@.outflows.len() == self.flows@.inflows.len()
    }

    /// What a sound net is made of is sound.
    pub proof fn lemma_view_wf(&self)
        requires
            self.wf(),
        ensures
            self@.wf(),
    {
    }

    /// Returns an empty Petri net.
    pub fn new() -> (net: Self)
        ensures
            net.wf(),
            net@ == NetView::empty(),
    {
        let net = Self {
            places: Places::new(),
            transitions: Transitions::new(),
            flows: Flows::new(),
        };
        assert(net@.flows =~= Seq::empty());
        net
    }

    /// Returns the number of places registered with the net.
    pub fn num_places(&self) -> (places: usize)
        ensures
            places == self@.places.len(),
    {
        self.places.len()
    }

    /// Returns the number of transitions registered with the net.
    pub fn num_transitions(&self) -> (transitions: usize)
        ensures
            transitions == self@.transitions.len(),
    {
        self.transitions.len()
    }

    /// Spawns new token.
    pub fn spawn_token(&self) -> (token: Token<Net>)
        ensures
            token@ == self@.blank(),
    {
        Token::new(self.places.len())
    }

    /// Returns the number of times a place has been marked by a token.
    pub fn marks_by_id(&self, place: PlaceId<Net>, token: &Token<Net>) -> (marks: usize)
        ensures
            marks == marks_at(token@, place@),
    {
        token.marks_by_id(place)
    }

    /// Marks a place with this token `n` times.
    pub fn mark_by_id(&self, place: PlaceId<Net>, token: &mut Token<Net>, n: usize)
        requires
            place@ < old(token)@.len(),
            old(token)@[place@ as int] + n <= usize::MAX,
        ensures
            final(token)@ == marked(old(token)@, place@, n as nat),
    {
        token.mark_by_id(place, n);
    }

    /// Undoes `n` markings of a place by this token.
    ///
    /// Returns [`NotEnoughMarks`] if the place does not have enough tokens to
    /// be unmarked; the token is then left as it was.
    pub fn unmark_by_id(&self, place: PlaceId<Net>, token: &mut Token<Net>, n: usize) -> (outcome:
        Result<(), NotEnoughMarks<Net>>)
        ensures
            n <= marks_at(old(token)@, place@) ==> outcome is Ok,
            n > marks_at(old(token)@, place@) ==> (outcome matches Err(error) && error.0 == place),
            final(token)@ == unmarked(old(token)@, place@, n as nat),
    {
        token.unmark_by_id(place, n)
    }

    /// Returns whether a transition is enabled.
    pub fn enabled_by_id(&self, trans: TransId<Net>, token: &Token<Net>) -> (enabled: bool)
        requires
            self.wf(),
            trans@ < self@.transitions.len(),
        ensures
            enabled == self@.enabled(trans@, token@),
    {
        let inflows = self.flows.inflows(trans);
        let ghost arcs = self@.flows[trans@ as int].inflows;
        let mut i: usize = 0;
        while i < inflows.len()
            invariant
                i <= inflows@.len(),
                inflow_arcs(inflows@) == arcs,
                arcs == self@.flows[trans@ as int].inflows,
                forall|j: int|
                    0 <= j < i ==> marks_at(token@, (#[trigger] arcs[j]).place) >= arcs[j].weight,
            decreases inflows@.len() - i,
        {
            let arc = inflows[i];
            assert(arcs[i as int] == arc@);
            if token.marks_by_id(arc.source) < arc.weight {
                assert(marks_at(token@, arcs[i as int].place) < arcs[i as int].weight);
                return false;
            }
            i += 1;
        }
        true
    }

    /// Returns whether firing a transition is sound: whether, in case the
    /// transition is enabled, every place holds what the arcs of the preset
    /// take from it together, and no count outgrows a `usize`.
    ///
    /// [`PetriNet::fire_by_id`] asks this of its callers. A preset that names
    /// no place twice leaves only the size of the counts to ask for.
    pub fn fires_soundly_by_id(&self, trans: TransId<Net>, token: &Token<Net>) -> (sound: bool)
        requires
            self.wf(),
            trans@ < self@.transitions.len(),
            token@.len() == self@.places.len(),
        ensures
            sound == self@.fires_soundly(trans@, token@),
    {
        if !self.enabled_by_id(trans, token) {
            return true;
        }
        let ghost before = token@;
        let ghost preset = self@.flows[trans@ as int].inflows;
        let ghost postset = self@.flows[trans@ as int].outflows;
        let mut scratch = token.clone();
        let inflows = self.flows.inflows(trans);
        let mut i: usize = 0;
        assert(preset.take(0) =~= Seq::empty());
        assert(scratch@ =~= consumed(before, preset.take(0)));
        while i < inflows.len()
            invariant
                i <= inflows@.len(),
                inflow_arcs(inflows@) == preset,
                trans@ < self@.flows.len(),
                preset == self@.flows[trans@ as int].inflows,
                before == token@,
                self@.enabled(trans@, before),
                covered(preset.take(i as int), before),
                scratch@ == consumed(before, preset.take(i as int)),
            decreases inflows@.len() - i,
        {
            let arc = inflows[i];
            let ghost place = arc@.place;
            proof {
                assert(preset[i as int] == arc@);
                lemma_weight_at_step(preset, i as int, place);
                assert(weight_at(preset.take(i as int), place) <= marks_at(before, place));
            }
            if scratch.marks_by_id(arc.source) < arc.weight {
                proof {
                    lemma_weight_at_prefix(preset, i + 1, place);
                    assert(weight_at(preset, place) > marks_at(before, place));
                }
                return false;
            }
            proof {
                assert forall|other: nat| #[trigger]
                    weight_at(preset.take(i + 1), other) <= marks_at(before, other) by {
                    lemma_weight_at_step(preset, i as int, other);
                    assert(weight_at(preset.take(i as int), other) <= marks_at(before, other));
                }
                lemma_consumed_step(before, preset, i as int);
            }
            match scratch.unmark_by_id(arc.source, arc.weight) {
                Ok(()) => {},
                Err(_) => vstd::pervasive::unreached(),
            }
            i += 1;
        }
        assert(preset.take(i as int) =~= preset);
        let ghost between = scratch@;
        let outflows = self.flows.outflows(trans);
        let mut j: usize = 0;
        assert(postset.take(0) =~= Seq::empty());
        assert(scratch@ =~= produced(between, postset.take(0)));
        while j < outflows.len()
            invariant
                j <= outflows@.len(),
                outflow_arcs(outflows@) == postset,
                in_range(postset, between.len()),
                trans@ < self@.flows.len(),
                preset == self@.flows[trans@ as int].inflows,
                postset == self@.flows[trans@ as int].outflows,
                before == token@,
                self@.enabled(trans@, before),
                covered(preset, before),
                between == consumed(before, preset),
                scratch@ == produced(between, postset.take(j as int)),
            decreases outflows@.len() - j,
        {
            let arc = outflows[j];
            let ghost place = arc@.place;
            proof {
                assert(postset[j as int] == arc@);
                assert(place < between.len());
                lemma_produced_step(between, postset, j as int);
                lemma_weight_at_prefix(postset, j + 1, place);
                assert(produced(between, postset.take(j + 1))[place as int]
                    == scratch@[place as int] + arc.weight);
                assert(produced(between, postset.take(j + 1))[place as int] <= produced(
                    between,
                    postset,
                )[place as int]);
            }
            if arc.weight > usize::MAX - scratch.marks_by_id(arc.target) {
                assert(fired(before, self@.flows[trans@ as int])[place as int] > usize::MAX);
                return false;
            }
            scratch.mark_by_id(arc.target, arc.weight);
            j += 1;
        }
        proof {
            assert(postset.take(j as int) =~= postset);
            scratch.lemma_fits();
        }
        true
    }

    /// Fires transition.
    ///
    /// Returns [`NotEnabled`] if the transition is not enabled; the token is
    /// then left as it was. Else every arc of the preset takes its weight
    /// from its place, and every arc of the postset gives its weight to its
    /// place: the total of the marks changes by what the postset weighs less
    /// what the preset weighs, and a place that no arc joins keeps its marks.
    ///
    /// The firing must be sound (see [`PetriNet::fires_soundly_by_id`]), and
    /// the token one of this net.
    pub fn fire_by_id(&self, trans: TransId<Net>, token: &mut Token<Net>) -> (outcome: Result<
        (),
        NotEnabled<Net>,
    >)
        requires
            self.wf(),
            trans@ < self@.transitions.len(),
            old(token)@.len() == self@.places.len(),
            self@.fires_soundly(trans@, old(token)@),
        ensures
            outcome is Ok <==> self@.enabled(trans@, old(token)@),
            outcome matches Err(error) ==> error.0 == trans,
            final(token)@ == self@.fire(trans@, old(token)@),
            !self@.enabled(trans@, old(token)@) ==> final(token)@ == old(token)@,
            outcome is Ok ==> total(final(token)@) == total(old(token)@) - total_weight(
                self@.flows[trans@ as int].inflows,
            ) + total_weight(self@.flows[trans@ as int].outflows),
            forall|place: int|
                0 <= place < old(token)@.len() && untouched(
                    self@.flows[trans@ as int].inflows,
                    place as nat,
                ) && untouched(self@.flows[trans@ as int].outflows, place as nat)
                    ==> #[trigger] final(token)@[place] == old(token)@[place],
    {
        if !self.enabled_by_id(trans, token) {
            return Err(NotEnabled(trans));
        }
        proof {
            self@.lemma_fire_conserves(trans@, token@);
        }
        let ghost before = token@;
        let ghost preset = self@.flows[trans@ as int].inflows;
        let ghost postset = self@.flows[trans@ as int].outflows;
        let inflows = self.flows.inflows(trans);
        let mut i: usize = 0;
        assert(preset.take(0) =~= Seq::empty());
        assert(token@ =~= consumed(before, preset.take(0)));
        while i < inflows.len()
            invariant
                i <= inflows@.len(),
                inflow_arcs(inflows@) == preset,
                covered(preset, before),
                token@ == consumed(before, preset.take(i as int)),
            decreases inflows@.len() - i,
        {
            let arc = inflows[i];
            proof {
                assert(preset[i as int] == arc@);
                lemma_covered_prefix(preset, before, i + 1);
                lemma_consumed_step(before, preset, i as int);
            }
            match token.unmark_by_id(arc.source, arc.weight) {
                Ok(()) => {},
                Err(_) => vstd::pervasive::unreached(),
            }
            i += 1;
        }
        assert(preset.take(i as int) =~= preset);
        let ghost between = token@;
        let outflows = self.flows.outflows(trans);
        let mut j: usize = 0;
        assert(postset.take(0) =~= Seq::empty());
        assert(token@ =~= produced(between, postset.take(0)));
        while j < outflows.len()
            invariant
                j <= outflows@.len(),
                outflow_arcs(outflows@) == postset,
                in_range(postset, between.len()),
                fits(produced(between, postset)),
                token@ == produced(between, postset.take(j as int)),
            decreases outflows@.len() - j,
        {
            let arc = outflows[j];
            proof {
                assert(postset[j as int] == arc@);
                let place = arc@.place;
                assert(place < between.len());
                lemma_produced_step(between, postset, j as int);
                lemma_weight_at_prefix(postset, j + 1, place);
                assert(produced(between, postset)[place as int] <= usize::MAX);
                assert(produced(between, postset.take(j + 1))[place as int] == token@[place as int]
                    + arc.weight);
            }
            token.mark_by_id(arc.target, arc.weight);
            j += 1;
        }
        assert(postset.take(j as int) =~= postset);
        Ok(())
    }

    /// Adds the place that `meta` describes to the net: a [`Place`] where
    /// `meta` names a Rust type, which is refused where that type is a place
    /// of the net already, and else an "anonymous" place.
    ///
    /// Returns the identifier to the place.
    pub fn add_place_erased(&mut self, meta: PlaceMetadata<Net>) -> (outcome: Result<
        PlaceId<Net>,
        BuildError,
    >)
        requires
            old(self).wf(),
        ensures
            final(self).wf(),
            old(self)@.built(
                old(self)@.add_place(meta@),
                old(self)@.places.len(),
                place::indexed(outcome),
                final(self)@,
            ),
    {
        let outcome = match meta.get_type_id() {
            Some(_) => self.places.register_kind(meta),
            None => Ok(self.places.register_with_meta(meta)),
        };
        proof {
            assert(self@.flows =~= old(self)@.flows);
            assert forall|trans: int| 0 <= trans < self@.flows.len() implies in_range(
                (#[trigger] self@.flows[trans]).inflows,
                self@.places.len(),
            ) && in_range(self@.flows[trans].outflows, self@.places.len()) by {
                assert(in_range(old(self)@.flows[trans].inflows, old(self)@.places.len()));
            }
        }
        outcome
    }

    /// Adds an "anonymous" place to the net (not a Rust type).
    ///
    /// Returns the identifier to the place.
    /// The user is responsible for storing the generated [`PlaceId`].
    pub fn add_place_anon(&mut self, name: &str) -> (id: PlaceId<Net>)
        requires
            old(self).wf(),
        ensures
            final(self).wf(),
            id@ == old(self)@.places.len(),
            old(self)@.add_place(KindView { name: name@, kind: None }) == Ok::<
                NetView,
                BuildError,
            >(final(self)@),
    {
        match self.add_place_erased(PlaceMetadata::new_anon(name)) {
            Ok(id) => id,
            Err(_) => vstd::pervasive::unreached(),
        }
    }

    /// Turns arcs that name their places by identifier into a preset, if
    /// every one of them names a place of the net.
    fn inflows_from(&self, arcs: &[(PlaceId<Net>, usize)]) -> (inflows: Option<Vec<Inflow<Net>>>)
        ensures
            inflows is Some <==> in_range(pair_arcs(arcs@), self@.places.len()),
            inflows matches Some(preset) ==> inflow_arcs(preset@) == pair_arcs(arcs@),
    {
        let mut preset: Vec<Inflow<Net>> = Vec::new();
        let mut i: usize = 0;
        while i < arcs.len()
            invariant
                i <= arcs@.len(),
                in_range(pair_arcs(arcs@).take(i as int), self@.places.len()),
                inflow_arcs(preset@) == pair_arcs(arcs@).take(i as int),
            decreases arcs@.len() - i,
        {
            let (source, weight) = arcs[i];
            if source.index() >= self.places.len() {
                assert(pair_arcs(arcs@)[i as int].place >= self@.places.len());
                return None;
            }
            let ghost earlier = inflow_arcs(preset@);
            preset.push(Inflow { source, weight });
            proof {
                let done = pair_arcs(arcs@).take(i + 1);
                assert forall|j: int| 0 <= j < done.len() implies inflow_arcs(preset@)[j]
                    == done[j] by {
                    if j < i {
                        assert(earlier[j] == pair_arcs(arcs@).take(i as int)[j]);
                    }
                }
                assert(inflow_arcs(preset@) =~= done);
                assert forall|j: int| 0 <= j < done.len() implies (#[trigger] done[j]).place
                    < self@.places.len() by {
                    if j < i {
                        assert(pair_arcs(arcs@).take(i as int)[j] == done[j]);
                    }
                }
            }
            i += 1;
        }
        assert(pair_arcs(arcs@).take(i as int) =~= pair_arcs(arcs@));
        Some(preset)
    }

    /// Turns arcs that name their places by identifier into a postset, if
    /// every one of them names a place of the net.
    fn outflows_from(&self, arcs: &[(PlaceId<Net>, usize)]) -> (outflows: Option<
        Vec<Outflow<Net>>,
    >)
        ensures
            outflows is Some <==> in_range(pair_arcs(arcs@), self@.places.len()),
            outflows matches Some(postset) ==> outflow_arcs(postset@) == pair_arcs(arcs@),
    {
        let mut postset: Vec<Outflow<Net>> = Vec::new();
        let mut i: usize = 0;
        while i < arcs.len()
            invariant
                i <= arcs@.len(),
                in_range(pair_arcs(arcs@).take(i as int), self@.places.len()),
                outflow_arcs(postset@) == pair_arcs(arcs@).take(i as int),
            decreases arcs@.len() - i,
        {
            let (target, weight) = arcs[i];
            if target.index() >= self.places.len() {
                assert(pair_arcs(arcs@)[i as int].place >= self@.places.len());
                return None;
            }
            let ghost earlier = outflow_arcs(postset@);
            postset.push(Outflow { target, weight });
            proof {
                let done = pair_arcs(arcs@).take(i + 1);
                assert forall|j: int| 0 <= j < done.len() implies outflow_arcs(postset@)[j]
                    == done[j] by {
                    if j < i {
                        assert(earlier[j] == pair_arcs(arcs@).take(i as int)[j]);
                    }
                }
                assert(outflow_arcs(postset@) =~= done);
                assert forall|j: int| 0 <= j < done.len() implies (#[trigger] done[j]).place
                    < self@.places.len() by {
                    if j < i {
                        assert(pair_arcs(arcs@).take(i as int)[j] == done[j]);
                    }
                }
            }
            i += 1;
        }
        assert(pair_arcs(arcs@).take(i as int) =~= pair_arcs(arcs@));
        Some(postset)
    }

    /// Registers the transition that `meta` describes, with a preset and a
    /// postset whose arcs join places of the net.
    fn push_trans(
        &mut self,
        meta: TransMetadata<Net>,
        inflows: Vec<Inflow<Net>>,
        outflows: Vec<Outflow<Net>>,
    ) -> (outcome: Result<TransId<Net>, BuildError>)
        requires
            old(self).wf(),
            in_range(inflow_arcs(inflows@), old(self)@.places.len()),
            in_range(outflow_arcs(outflows@), old(self)@.places.len()),
        ensures
            final(self).wf(),
            old(self)@.built(
                old(self)@.push_trans(
                    meta@,
                    TransView {
                        inflows: inflow_arcs(inflows@),
                        outflows: outflow_arcs(outflows@),
                    },
                ),
                old(self)@.transitions.len(),
                trans::indexed(outcome),
                final(self)@,
            ),
    {
        let registered = match meta.get_type_id() {
            Some(_) => self.transitions.register_kind(meta),
            None => Ok(self.transitions.register_with_meta(meta)),
        };
        match registered {
            Ok(id) => {
                self.flows.add_inflows(inflows);
                self.flows.add_outflows(outflows);
                proof {
                    let arcs = TransView {
                        inflows: inflow_arcs(inflows@),
                        outflows: outflow_arcs(outflows@),
                    };
                    assert(self@.flows =~= old(self)@.flows.push(arcs));
                    assert forall|trans: int| 0 <= trans < self@.flows.len() implies in_range(
                        (#[trigger] self@.flows[trans]).inflows,
                        self@.places.len(),
                    ) && in_range(self@.flows[trans].outflows, self@.places.len()) by {
                        if trans < old(self)@.flows.len() {
                            assert(in_range(
                                old(self)@.flows[trans].inflows,
                                old(self)@.places.len(),
                            ));
                        }
                    }
                }
                Ok(id)
            },
            Err(error) => {
                assert(self@.flows =~= old(self)@.flows);
                Err(error)
            },
        }
    }

    /// Adds an "anonymous" transition to the net (not a Rust type), with its
    /// input and output arcs.
    ///
    /// Returns the identifier to the transition.
    /// The user is responsible for storing the generated [`TransId`].
    ///
    /// Refused if any input or output place is not registered with the net;
    /// the net is then left as it was.
    pub fn add_trans_anon(
        &mut self,
        name: &str,
        inflows: &[(PlaceId<Net>, usize)],
        outflows: &[(PlaceId<Net>, usize)],
    ) -> (outcome: Result<TransId<Net>, BuildError>)
        requires
            old(self).wf(),
        ensures
            final(self).wf(),
            old(self)@.built(
                old(self)@.add_trans_anon(name@, pair_arcs(inflows@), pair_arcs(outflows@)),
                old(self)@.transitions.len(),
                trans::indexed(outcome),
                final(self)@,
            ),
    {
        let preset = match self.inflows_from(inflows) {
            Some(preset) => preset,
            None => {
                return Err(BuildError::UnknownPlace);
            },
        };
        let postset = match self.outflows_from(outflows) {
            Some(postset) => postset,
            None => {
                return Err(BuildError::UnknownPlace);
            },
        };
        self.push_trans(TransMetadata::new_anon(name), preset, postset)
    }

    /// Finds the places that the arcs name by kind, and returns the preset
    /// that joins them, if every one of the kinds is a place of the net.
    fn resolve_inflows(&self, arcs: &Vec<(PlaceMetadata<Net>, usize)>) -> (inflows: Option<
        Vec<Inflow<Net>>,
    >)
        requires
            self.wf(),
        ensures
            inflows is Some <==> self@.places.resolves(kind_arcs(arcs@)),
            inflows matches Some(preset) ==> inflow_arcs(preset@) == self@.places.resolved(
                kind_arcs(arcs@),
            ),
    {
        let mut preset: Vec<Inflow<Net>> = Vec::new();
        let mut i: usize = 0;
        while i < arcs.len()
            invariant
                i <= arcs@.len(),
                preset@.len() == i,
                self@.places.resolves(kind_arcs(arcs@).take(i as int)),
                inflow_arcs(preset@) == self@.places.resolved(kind_arcs(arcs@).take(i as int)),
            decreases arcs@.len() - i,
        {
            assert(kind_arcs(arcs@)[i as int].0 == arcs@[i as int].0@);
            let kind = match arcs[i].0.get_type_id() {
                Some(kind) => kind,
                None => {
                    return None;
                },
            };
            let source = match self.places.id_from_erased(kind) {
                Some(source) => source,
                None => {
                    return None;
                },
            };
            let ghost earlier = inflow_arcs(preset@);
            preset.push(Inflow { source, weight: arcs[i].1 });
            proof {
                let done = kind_arcs(arcs@).take(i + 1);
                assert(done[i as int] == kind_arcs(arcs@)[i as int]);
                assert forall|j: int| 0 <= j < done.len() implies inflow_arcs(preset@)[j]
                    == self@.places.resolved(done)[j] by {
                    if j < i {
                        assert(earlier[j] == self@.places.resolved(
                            kind_arcs(arcs@).take(i as int),
                        )[j]);
                        assert(kind_arcs(arcs@).take(i as int)[j] == done[j]);
                    } else {
                        assert(self@.places.lookup(kind) == Some(source@));
                    }
                }
                assert forall|j: int| 0 <= j < done.len() implies ((#[trigger] done[j]).0.kind
                    matches Some(kind) && self@.places.has_kind(kind)) by {
                    if j < i {
                        assert(kind_arcs(arcs@).take(i as int)[j] == done[j]);
                    }
                }
                assert(inflow_arcs(preset@) =~= self@.places.resolved(done));
            }
            i += 1;
        }
        assert(kind_arcs(arcs@).take(i as int) =~= kind_arcs(arcs@));
        Some(preset)
    }

    /// Finds the places that the arcs name by kind, and returns the postset
    /// that joins them, if every one of the kinds is a place of the net.
    fn resolve_outflows(&self, arcs: &Vec<(PlaceMetadata<Net>, usize)>) -> (outflows: Option<
        Vec<Outflow<Net>>,
    >)
        requires
            self.wf(),
        ensures
            outflows is Some <==> self@.places.resolves(kind_arcs(arcs@)),
            outflows matches Some(postset) ==> outflow_arcs(postset@) == self@.places.resolved(
                kind_arcs(arcs@),
            ),
    {
        let mut postset: Vec<Outflow<Net>> = Vec::new();
        let mut i: usize = 0;
        while i < arcs.len()
            invariant
                i <= arcs@.len(),
                postset@.len() == i,
                self@.places.resolves(kind_arcs(arcs@).take(i as int)),
                outflow_arcs(postset@) == self@.places.resolved(kind_arcs(arcs@).take(i as int)),
            decreases arcs@.len() - i,
        {
            assert(kind_arcs(arcs@)[i as int].0 == arcs@[i as int].0@);
            let kind = match arcs[i].0.get_type_id() {
                Some(kind) => kind,
                None => {
                    return None;
                },
            };
            let target = match self.places.id_from_erased(kind) {
                Some(target) => target,
                None => {
                    return None;
                },
            };
            let ghost earlier = outflow_arcs(postset@);
            postset.push(Outflow { target, weight: arcs[i].1 });
            proof {
                let done = kind_arcs(arcs@).take(i + 1);
                assert(done[i as int] == kind_arcs(arcs@)[i as int]);
                assert forall|j: int| 0 <= j < done.len() implies outflow_arcs(postset@)[j]
                    == self@.places.resolved(done)[j] by {
                    if j < i {
                        assert(earlier[j] == self@.places.resolved(
                            kind_arcs(arcs@).take(i as int),
                        )[j]);
                        assert(kind_arcs(arcs@).take(i as int)[j] == done[j]);
                    } else {
                        assert(self@.places.lookup(kind) == Some(target@));
                    }
                }
                assert forall|j: int| 0 <= j < done.len() implies ((#[trigger] done[j]).0.kind
                    matches Some(kind) && self@.places.has_kind(kind)) by {
                    if j < i {
                        assert(kind_arcs(arcs@).take(i as int)[j] == done[j]);
                    }
                }
                assert(outflow_arcs(postset@) =~= self@.places.resolved(done));
            }
            i += 1;
        }
        assert(kind_arcs(arcs@).take(i as int) =~= kind_arcs(arcs@));
        Some(postset)
    }

    /// Adds the transition that `meta` describes to the net, with input and
    /// output arcs that name their places by kind.
    ///
    /// Returns the identifier to the transition.
    ///
    /// Refused if `meta` names a Rust type that is a transition of the net
    /// already, and else if any input or output place is not registered with
    /// the net; the net is then left as it was.
    pub fn add_trans_erased(
        &mut self,
        meta: TransMetadata<Net>,
        inflows: Vec<(PlaceMetadata<Net>, usize)>,
        outflows: Vec<(PlaceMetadata<Net>, usize)>,
    ) -> (outcome: Result<TransId<Net>, BuildError>)
        requires
            old(self).wf(),
        ensures
            final(self).wf(),
            old(self)@.built(
                old(self)@.add_trans(meta@, kind_arcs(inflows@), kind_arcs(outflows@)),
                old(self)@.transitions.len(),
                trans::indexed(outcome),
                final(self)@,
            ),
    {
        let known = match meta.get_type_id() {
            Some(kind) => self.transitions.id_from_erased(kind).is_some(),
            None => false,
        };
        if known {
            return Err(BuildError::DuplicateRegistration);
        }
        let preset = match self.resolve_inflows(&inflows) {
            Some(preset) => preset,
            None => {
                return Err(BuildError::UnknownPlace);
            },
        };
        let postset = match self.resolve_outflows(&outflows) {
            Some(postset) => postset,
            None => {
                return Err(BuildError::UnknownPlace);
            },
        };
        proof {
            let ins = kind_arcs(inflows@);
            let outs = kind_arcs(outflows@);
            assert forall|i: int| 0 <= i < ins.len() implies (#[trigger] self@.places.resolved(
                ins,
            )[i]).place < self@.places.len() by {
                assert(self@.places.has_kind(ins[i].0.kind->Some_0));
            }
            assert forall|i: int| 0 <= i < outs.len() implies (#[trigger] self@.places.resolved(
                outs,
            )[i]).place < self@.places.len() by {
                assert(self@.places.has_kind(outs[i].0.kind->Some_0));
            }
        }
        self.push_trans(meta, preset, postset)
    }

    /// Ends the construction of the net. Every registration was checked when
    /// it was made: the net is returned as it is.
    pub fn build(self) -> (net: Self)
        ensures
            net == self,
    {
        self
    }

    /// Allows composing Petri net configuration.
    pub fn compose<F: FnOnce(Self) -> Self>(self, f: F) -> (net: Self)
        requires
            call_requires(f, (self,)),
        ensures
            call_ensures(f, (self,), net),
    {
        f(self)
    }
}

/// The arcs that pairs of a place's identifier and a weight stand for.
pub open spec fn pair_arcs<Net: NetId>(pairs: Seq<(PlaceId<Net>, usize)>) -> Seq<ArcView> {
    pairs.map_values(
        |pair: (PlaceId<Net>, usize)| ArcView { place: pair.0@, weight: pair.1 as nat },
    )
}

/// What pairs of a place's metadata and a weight say of the arcs they stand
/// for: the kind of each place, and the weight.
pub open spec fn kind_arcs<Net: NetId>(pairs: Seq<(PlaceMetadata<Net>, usize)>) -> Seq<
    (KindView, nat),
> {
    pairs.map_values(|pair: (PlaceMetadata<Net>, usize)| (pair.0@, pair.1 as nat))
}

} // verus!
