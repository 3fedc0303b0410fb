//! A net as mathematics: what it is made of, what each registration does to
//! it, and what firing a transition does to a marking.

use crate::net::kind::{KindView, RegistryView};
use crate::net::marking::{
    covered, distinct_places, enabled, fired, fits, in_range, lemma_distinct_enabled_is_covered,
    lemma_fire_conserves, total, total_weight, untouched, ArcView, TransView,
};
use crate::net::BuildError;
use std::any::TypeId;
use vstd::prelude::*;

verus! {

/// What a net is made of: its places, its transitions, and the arcs of
/// each transition, by the transition's index.
pub struct NetView {
    pub places: RegistryView,
    pub transitions: RegistryView,
    pub flows: Seq<TransView>,
}

impl NetView {
    /// The registries are sound, every transition has its arcs, and every arc
    /// joins a place of the net.
    pub open spec fn wf(self) -> bool {
        &&& self.places.wf()
        &&& self.transitions.wf()
        &&& self.flows.len() == self.transitions.len()
        &&& forall|trans: int|
            0 <= trans < self.flows.len() ==> in_range(
                (#[trigger] self.flows[trans]).inflows,
                self.places.len(),
            ) && in_range(self.flows[trans].outflows, self.places.len())
    }

    /// The net with no place and no transition.
    pub open spec fn empty() -> NetView {
        NetView {
            places: RegistryView::empty(),
            transitions: RegistryView::empty(),
            flows: Seq::empty(),
        }
    }

    /// The net after `record` was registered as a place: refused where its
    /// kind is a place of the net already.
    pub open spec fn add_place(self, record: KindView) -> Result<NetView, BuildError> {
        match self.places.register(record) {
            Ok(places) => Ok(
                NetView { places, transitions: self.transitions, flows: self.flows },
            ),
            Err(error) => Err(error),
        }
    }

    /// The net after `record` was registered as a transition with the arcs
    /// `trans`: refused where its kind is a transition of the net already.
    pub open spec fn push_trans(self, record: KindView, trans: TransView) -> Result<
        NetView,
        BuildError,
    > {
        match self.transitions.register(record) {
            Ok(transitions) => Ok(
                NetView { places: self.places, transitions, flows: self.flows.push(trans) },
            ),
            Err(error) => Err(error),
        }
    }

    /// The net after a transition was registered whose arcs name their
    /// places by identifier: refused where an arc names no place of the net.
    pub open spec fn add_trans_anon(
        self,
        name: Seq<char>,
        inflows: Seq<ArcView>,
        outflows: Seq<ArcView>,
    ) -> Result<NetView, BuildError> {
        if in_range(inflows, self.places.len()) && in_range(outflows, self.places.len()) {
            self.push_trans(KindView { name, kind: None }, TransView { inflows, outflows })
        } else {
            Err(BuildError::UnknownPlace)
        }
    }

    /// The net after a transition was registered whose arcs name their
    /// places by kind: refused where the transition's kind is a transition
    /// of the net already, and else where an arc names no place of the net.
    pub open spec fn add_trans(
        self,
        record: KindView,
        inflows: Seq<(KindView, nat)>,
        outflows: Seq<(KindView, nat)>,
    ) -> Result<NetView, BuildError> {
        if self.transitions.register(record) is Err {
            Err(BuildError::DuplicateRegistration)
        } else if self.places.resolves(inflows) && self.places.resolves(outflows) {
            self.push_trans(
                record,
                TransView {
                    inflows: self.places.resolved(inflows),
                    outflows: self.places.resolved(outflows),
                },
            )
        } else {
            Err(BuildError::UnknownPlace)
        }
    }

    /// An operation on the net `self` that `expected` describes ended in
    /// `outcome` and left the net `after`: where it succeeded, with the
    /// identifier `id`; where it was refused, with the net as it was.
    pub open spec fn built(
        self,
        expected: Result<NetView, BuildError>,
        id: nat,
        outcome: Result<nat, BuildError>,
        after: NetView,
    ) -> bool {
        match expected {
            Ok(net) => outcome == Ok::<nat, BuildError>(id) && after == net,
            Err(error) => outcome == Err::<nat, BuildError>(error) && after == self,
        }
    }

    /// The marking of a token that was just spawned: no mark on any place.
    pub open spec fn blank(self) -> Seq<nat> {
        Seq::new(self.places.len(), |place: int| 0nat)
    }

    /// The transition `trans` is enabled under `marking`: each arc of its
    /// preset finds its weight on its place.
    pub open spec fn enabled(self, trans: nat, marking: Seq<nat>) -> bool {
        enabled(self.flows[trans as int].inflows, marking)
    }

    /// Firing `trans` under `marking` is sound: where the transition is
    /// enabled, every place holds what the arcs of the preset take from it
    /// together, and no count outgrows a `usize`.
    pub open spec fn fires_soundly(self, trans: nat, marking: Seq<nat>) -> bool {
        self.enabled(trans, marking) ==> covered(self.flows[trans as int].inflows, marking)
            && fits(fired(marking, self.flows[trans as int]))
    }

    /// The marking after an attempt to fire `trans`: the preset consumed and
    /// the postset produced where the transition is enabled, else the marking
    /// as it was.
    pub open spec fn fire(self, trans: nat, marking: Seq<nat>) -> Seq<nat> {
        if self.enabled(trans, marking) {
            fired(marking, self.flows[trans as int])
        } else {
            marking
        }
    }
}

impl NetView {
    /// A place's kind is registered once: after a registration of it that
    /// succeeded, every other one is refused, whatever name it gives.
    pub proof fn lemma_place_registers_once(self, record: KindView, again: KindView)
        requires
            record.kind is Some,
            again.kind == record.kind,
            self.add_place(record) is Ok,
        ensures
            self.add_place(record)->Ok_0.places.has_kind(record.kind->Some_0),
            self.add_place(record)->Ok_0.add_place(again) == Err::<NetView, BuildError>(
                BuildError::DuplicateRegistration,
            ),
    {
    }

    /// A transition's kind is registered once: after a registration of it
    /// that succeeded, every other one is refused, whatever its arcs.
    pub proof fn lemma_trans_registers_once(
        self,
        record: KindView,
        inflows: Seq<(KindView, nat)>,
        outflows: Seq<(KindView, nat)>,
        again: KindView,
        other_inflows: Seq<(KindView, nat)>,
        other_outflows: Seq<(KindView, nat)>,
    )
        requires
            record.kind is Some,
            again.kind == record.kind,
            self.add_trans(record, inflows, outflows) is Ok,
        ensures
            self.add_trans(record, inflows, outflows)->Ok_0.transitions.has_kind(
                record.kind->Some_0,
            ),
            self.add_trans(record, inflows, outflows)->Ok_0.add_trans(
                again,
                other_inflows,
                other_outflows,
            ) == Err::<NetView, BuildError>(BuildError::DuplicateRegistration),
    {
    }

    /// A kind that is registered is refused: as a place where it is a place
    /// of the net, as a transition where it is a transition of the net.
    pub proof fn lemma_registered_is_refused(
        self,
        record: KindView,
        inflows: Seq<(KindView, nat)>,
        outflows: Seq<(KindView, nat)>,
    )
        requires
            record.kind is Some,
        ensures
            self.places.has_kind(record.kind->Some_0) ==> self.add_place(record) == Err::<
                NetView,
                BuildError,
            >(BuildError::DuplicateRegistration),
            self.transitions.has_kind(record.kind->Some_0) ==> self.add_trans(
                record,
                inflows,
                outflows,
            ) == Err::<NetView, BuildError>(BuildError::DuplicateRegistration),
    {
    }

    /// A kind that is registered stays registered, whatever is registered
    /// after it.
    pub proof fn lemma_kinds_stay(
        self,
        kind: TypeId,
        record: KindView,
        inflows: Seq<(KindView, nat)>,
        outflows: Seq<(KindView, nat)>,
        arcs: TransView,
    )
        ensures
            self.add_place(record) matches Ok(net) ==> (self.places.has_kind(kind)
                ==> net.places.has_kind(kind)) && (self.transitions.has_kind(kind)
                ==> net.transitions.has_kind(kind)),
            self.add_trans(record, inflows, outflows) matches Ok(net) ==> (self.places.has_kind(
                kind,
            ) ==> net.places.has_kind(kind)) && (self.transitions.has_kind(kind)
                ==> net.transitions.has_kind(kind)),
            self.add_trans_anon(record.name, arcs.inflows, arcs.outflows) matches Ok(net) ==> (
            self.places.has_kind(kind) ==> net.places.has_kind(kind)) && (
            self.transitions.has_kind(kind) ==> net.transitions.has_kind(kind)),
    {
    }

    /// Conservation: where a transition fires soundly, its firing changes
    /// the total of the marking by what its postset weighs less what its
    /// preset weighs, and leaves every place alone that none of its arcs
    /// joins.
    pub proof fn lemma_fire_conserves(self, trans: nat, marking: Seq<nat>)
        requires
            self.wf(),
            trans < self.transitions.len(),
            marking.len() == self.places.len(),
            self.enabled(trans, marking),
            covered(self.flows[trans as int].inflows, marking),
        ensures
            total(self.fire(trans, marking)) == total(marking) - total_weight(
                self.flows[trans as int].inflows,
            ) + total_weight(self.flows[trans as int].outflows),
            forall|place: int|
                0 <= place < marking.len() && untouched(
                    self.flows[trans as int].inflows,
                    place as nat,
                ) && untouched(self.flows[trans as int].outflows, place as nat)
                    ==> #[trigger] self.fire(trans, marking)[place] == marking[place],
    {
        lemma_fire_conserves(marking, self.flows[trans as int]);
    }

    /// A transition whose preset names no place twice fires soundly as soon
    /// as no count outgrows a `usize`.
    pub proof fn lemma_distinct_fires_soundly(self, trans: nat, marking: Seq<nat>)
        requires
            distinct_places(self.flows[trans as int].inflows),
            self.enabled(trans, marking) ==> fits(fired(marking, self.flows[trans as int])),
        ensures
            self.fires_soundly(trans, marking),
    {
        if self.enabled(trans, marking) {
            lemma_distinct_enabled_is_covered(self.flows[trans as int].inflows, marking);
        }
    }
}

} // verus!
