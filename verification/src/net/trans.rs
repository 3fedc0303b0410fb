//! Petri net transitions.

use crate::net::kind::{kind_index_entries, type_id_of, KindIndex, KindView, RegistryView};
use crate::net::marking::ArcView;
use crate::net::place::PlaceId;
use crate::net::{BuildError, NetId};
use std::any::TypeId;
use std::marker::PhantomData;
use vstd::prelude::*;
use vstd::std_specs::cmp::PartialEqSpecImpl;

verus! {

/// Transition belonging to a Petri net.
pub trait Trans<Net: NetId>: Send + Sync + 'static {}

/// Numbered [`Trans`] compatible with any Petri net for convenience.
pub enum Tn<const N: usize> {
    /// The only value of the kind.
    Kind,
}

impl<Net: NetId, const N: usize> Trans<Net> for Tn<N> {}

/// Reference to a [`Trans`] in a Petri net.
#[derive(Debug, Hash, PartialOrd, Ord)]
pub struct TransId<Net: NetId>(usize, PhantomData<Net>);

impl<Net: NetId> View for TransId<Net> {
    type V = nat;

    /// The index of the transition in its net's table of transitions.
    closed spec fn view(&self) -> nat {
        self.0 as nat
    }
}

impl<Net: NetId> Clone for TransId<Net> {
    fn clone(&self) -> (id: Self)
        ensures
            id == *self,
    {
        TransId(self.0, PhantomData)
    }
}

impl<Net: NetId> Copy for TransId<Net> {}

impl<Net: NetId> PartialEq for TransId<Net> {
    fn eq(&self, other: &Self) -> (equal: bool) {
        self.0 == other.0
    }
}

impl<Net: NetId> Eq for TransId<Net> {}

impl<Net: NetId> PartialEqSpecImpl for TransId<Net> {
    open spec fn obeys_eq_spec() -> bool {
        true
    }

    open spec fn eq_spec(&self, other: &Self) -> bool {
        self@ == other@
    }
}

impl<Net: NetId> Default for TransId<Net> {
    fn default() -> (id: Self)
        ensures
            id@ == 0,
    {
        TransId(0, PhantomData)
    }
}

impl<Net: NetId> TransId<Net> {
    /// Creates a new [`TransId`].
    ///
    /// The `index` is a unique value associated with each type of transition in a
    /// given Petri net: the number of transitions that were registered with the
    /// net before it.
    pub(crate) fn new(index: usize) -> (id: Self)
        ensures
            id@ == index,
    {
        TransId(index, PhantomData)
    }

    /// Returns the index of the transition.
    pub fn index(self) -> (index: usize)
        ensures
            index == self@,
    {
        self.0
    }
}

/// What a lookup found, with the identifier as its index.
pub open spec fn found_index<Net: NetId>(found: Option<TransId<Net>>) -> Option<nat> {
    match found {
        Some(id) => Some(id@),
        None => None,
    }
}

/// The outcome of a registration, with the identifier as its index.
pub open spec fn indexed<Net: NetId>(outcome: Result<TransId<Net>, BuildError>) -> Result<
    nat,
    BuildError,
> {
    match outcome {
        Ok(id) => Ok(id@),
        Err(error) => Err(error),
    }
}

/// A value describing a [`Trans`], which may or may not correspond to a Rust type.
#[derive(Debug)]
pub struct TransMetadata<Net: NetId> {
    name: String,
    type_id: Option<TypeId>,
    _net: PhantomData<Net>,
}

impl<Net: NetId> View for TransMetadata<Net> {
    type V = KindView;

    closed spec fn view(&self) -> KindView {
        KindView { name: self.name@, kind: self.type_id }
    }
}

impl<Net: NetId> Clone for TransMetadata<Net> {
    fn clone(&self) -> (meta: Self)
        ensures
            meta@ == self@,
    {
        Self { name: self.name.clone(), type_id: self.type_id, _net: PhantomData }
    }
}

impl<Net: NetId> Default for TransMetadata<Net> {
    fn default() -> (meta: Self)
        ensures
            meta@.kind is None,
            meta@.name.len() == 0,
    {
        Self { name: String::new(), type_id: None, _net: PhantomData }
    }
}

impl<Net: NetId> TransMetadata<Net> {
    /// Create a new [`TransMetadata`] for the transition `T`.
    ///
    /// The Rust type is the name of such a transition: its display name is empty.
    pub fn new<T: Trans<Net>>() -> (meta: Self)
        ensures
            meta@.kind is Some,
            meta@.name.len() == 0,
    {
        Self { name: String::new(), type_id: Some(type_id_of::<T>()), _net: PhantomData }
    }

    /// Create a new [`TransMetadata`] for the transition `T`, with a display name.
    pub fn new_named<T: Trans<Net>>(name: &str) -> (meta: Self)
        ensures
            meta@.kind is Some,
            meta@.name == name@,
    {
        Self { name: name.to_owned(), type_id: Some(type_id_of::<T>()), _net: PhantomData }
    }

    /// Returns a new [`TransMetadata`] for an "anonymous" transition (not a Rust type).
    pub fn new_anon(name: &str) -> (meta: Self)
        ensures
            meta@.kind is None,
            meta@.name == name@,
    {
        Self { name: name.to_owned(), type_id: None, _net: PhantomData }
    }

    /// Returns the name of the transition.
    pub fn name(&self) -> (name: &str)
        ensures
            name@ == self@.name,
    {
        self.name.as_str()
    }

    /// Returns the [`TypeId`] of the transition, which must correspond to a Rust type.
    pub fn type_id(&self) -> (kind: TypeId)
        requires
            self@.kind is Some,
        ensures
            self@.kind == Some(kind),
    {
        match self.type_id {
            Some(kind) => kind,
            None => vstd::pervasive::unreached(),
        }
    }

    /// Returns the [`TypeId`] of the transition.
    ///
    /// Returns `None` if the transition does not correspond to a Rust type.
    pub fn get_type_id(&self) -> (kind: Option<TypeId>)
        ensures
            kind == self@.kind,
    {
        self.type_id
    }
}

/// The transitions registered with a net.
#[derive(Debug)]
pub struct Transitions<Net: NetId> {
    transitions: Vec<TransMetadata<Net>>,
    indices: KindIndex,
}

impl<Net: NetId> View for Transitions<Net> {
    type V = RegistryView;

    closed spec fn view(&self) -> RegistryView {
        RegistryView {
            records: self.transitions@.map_values(|meta: TransMetadata<Net>| meta@),
            index: kind_index_entries(self.indices).map_values(|index: usize| index as nat),
        }
    }
}

impl<Net: NetId> Default for Transitions<Net> {
    fn default() -> (transitions: Self)
        ensures
            transitions@ == RegistryView::empty(),
            transitions@.wf(),
    {
        Transitions::new()
    }
}

impl<Net: NetId> Transitions<Net> {
    /// Returns an instance with no transition registered.
    pub fn new() -> (transitions: Self)
        ensures
            transitions@ == RegistryView::empty(),
            transitions@.wf(),
    {
        let transitions = Transitions { transitions: Vec::new(), indices: KindIndex::new() };
        assert(transitions@.records =~= Seq::empty());
        assert(transitions@.index =~= Map::empty());
        transitions
    }

    /// Registers a transition of type `T` with this instance.
    ///
    /// The returned `TransId` is specific to the Petri net instance
    /// it was retrieved from and should not be used with another Petri net.
    ///
    /// Refused if a transition of this type has already been registered; the
    /// instance is then left as it was.
    pub fn register<T: Trans<Net>>(&mut self) -> (outcome: Result<TransId<Net>, BuildError>)
        requires
            old(self)@.wf(),
        ensures
            final(self)@.wf(),
            exists|record: KindView|
                record.kind is Some && record.name.len() == 0 && #[trigger] old(self)@.registered(
                    record,
                    indexed(outcome),
                    final(self)@,
                ),
    {
        let meta = TransMetadata::new::<T>();
        let ghost record = meta@;
        let outcome = self.register_kind(meta);
        assert(old(self)@.registered(record, indexed(outcome), self@));
        outcome
    }

    /// Registers the kind that `meta` describes, as [`Transitions::register`]
    /// does for a Rust type.
    pub fn register_kind(&mut self, meta: TransMetadata<Net>) -> (outcome: Result<
        TransId<Net>,
        BuildError,
    >)
        requires
            old(self)@.wf(),
            meta@.kind is Some,
        ensures
            final(self)@.wf(),
            old(self)@.registered(meta@, indexed(outcome), final(self)@),
    {
        let kind = meta.type_id();
        let index = self.transitions.len();
        if self.indices.try_insert(kind, index) {
            self.transitions.push(meta);
            assert(self@.records =~= old(self)@.records.push(meta@));
            assert(self@.index =~= old(self)@.index.insert(kind, index as nat));
            Ok(TransId::new(index))
        } else {
            assert(self@.index =~= old(self)@.index);
            Err(BuildError::DuplicateRegistration)
        }
    }

    /// Registers a transition via its metadata.
    ///
    /// The returned `TransId` is specific to the Petri net instance
    /// it was retrieved from and should not be used with another Petri net.
    ///
    /// ## Note
    ///
    /// If this method is called multiple times with identical metadata,
    /// a distinct [`TransId`] will be created for each one.
    pub fn register_with_meta(&mut self, meta: TransMetadata<Net>) -> (id: TransId<Net>)
        requires
            old(self)@.wf(),
        ensures
            final(self)@.wf(),
            final(self)@ == old(self)@.push(meta@),
            id@ == old(self)@.len(),
    {
        let index = self.transitions.len();
        self.transitions.push(meta);
        assert(self@.records =~= old(self)@.records.push(meta@));
        TransId::new(index)
    }

    /// Returns the number of transitions registered with this instance.
    pub fn len(&self) -> (len: usize)
        ensures
            len == self@.len(),
    {
        self.transitions.len()
    }

    /// Returns `true` if there are no transitions registered with this instance.
    /// Otherwise, this returns `false`.
    pub fn is_empty(&self) -> (empty: bool)
        ensures
            empty == (self@.len() == 0),
    {
        self.transitions.len() == 0
    }

    /// Gets the metadata associated with the given transition.
    pub fn metadata(&self, id: TransId<Net>) -> (meta: &TransMetadata<Net>)
        requires
            id@ < self@.len(),
        ensures
            meta@ == self@.records[id@ as int],
    {
        &self.transitions[id.index()]
    }

    /// Returns the name associated with the given transition.
    pub fn name(&self, id: TransId<Net>) -> (name: &str)
        requires
            id@ < self@.len(),
        ensures
            name@ == self@.records[id@ as int].name,
    {
        self.metadata(id).name()
    }

    /// Returns the [`TransId`] associated with the given `type_id`, if it has
    /// been registered with the Petri net.
    ///
    /// The returned `TransId` is specific to the Petri net instance
    /// it was retrieved from and should not be used with another Petri net.
    pub fn id_from_erased(&self, type_id: TypeId) -> (found: Option<TransId<Net>>)
        ensures
            found_index(found) == self@.lookup(type_id),
    {
        match self.indices.get(type_id) {
            Some(index) => Some(TransId::new(index)),
            None => None,
        }
    }

    /// Returns the [`TransId`] of the given [`Trans`] of type `T`, if it has
    /// been registered with the Petri net.
    ///
    /// The returned `TransId` is specific to the Petri net instance
    /// it was retrieved from and should not be used with another Petri net.
    pub fn id<T: Trans<Net>>(&self) -> (found: Option<TransId<Net>>)
        ensures
            exists|kind: TypeId| found_index(found) == #[trigger] self@.lookup(kind),
    {
        let kind = type_id_of::<T>();
        let found = self.id_from_erased(kind);
        assert(found_index(found) == self@.lookup(kind));
        found
    }
}

/// Weighted arc from a place to a transition: what firing the transition
/// takes from the place.
#[derive(Debug)]
pub struct Inflow<Net: NetId> {
    pub source: PlaceId<Net>,
    pub weight: usize,
}

impl<Net: NetId> View for Inflow<Net> {
    type V = ArcView;

    open spec fn view(&self) -> ArcView {
        ArcView { place: self.source@, weight: self.weight as nat }
    }
}

impl<Net: NetId> Clone for Inflow<Net> {
    fn clone(&self) -> (arc: Self)
        ensures
            arc == *self,
    {
        Inflow { source: self.source, weight: self.weight }
    }
}

impl<Net: NetId> Copy for Inflow<Net> {}

/// Weighted arc from a transition to a place: what firing the transition
/// gives to the place.
#[derive(Debug)]
pub struct Outflow<Net: NetId> {
    pub target: PlaceId<Net>,
    pub weight: usize,
}

impl<Net: NetId> View for Outflow<Net> {
    type V = ArcView;

    open spec fn view(&self) -> ArcView {
        ArcView { place: self.target@, weight: self.weight as nat }
    }
}

impl<Net: NetId> Clone for Outflow<Net> {
    fn clone(&self) -> (arc: Self)
        ensures
            arc == *self,
    {
        Outflow { target: self.target, weight: self.weight }
    }
}

impl<Net: NetId> Copy for Outflow<Net> {}

/// The arcs that a list of inflows stands for.
pub open spec fn inflow_arcs<Net: NetId>(inflows: Seq<Inflow<Net>>) -> Seq<ArcView> {
    inflows.map_values(|arc: Inflow<Net>| arc@)
}

/// The arcs that a list of outflows stands for.
pub open spec fn outflow_arcs<Net: NetId>(outflows: Seq<Outflow<Net>>) -> Seq<ArcView> {
    outflows.map_values(|arc: Outflow<Net>| arc@)
}

/// What [`Flows`] holds: a preset for each transition that got one, and a
/// postset for each that got one, both in the order of the transitions'
/// identifiers.
pub struct FlowsView {
    pub inflows: Seq<Seq<ArcView>>,
    pub outflows: Seq<Seq<ArcView>>,
}

/// The presets and postsets of the transitions of a net.
#[derive(Debug)]
pub struct Flows<Net: NetId> {
    inflows: Vec<Vec<Inflow<Net>>>,
    outflows: Vec<Vec<Outflow<Net>>>,
}

impl<Net: NetId> View for Flows<Net> {
    type V = FlowsView;

    closed spec fn view(&self) -> FlowsView {
        FlowsView {
            inflows: self.inflows@.map_values(|arcs: Vec<Inflow<Net>>| inflow_arcs(arcs@)),
            outflows: self.outflows@.map_values(|arcs: Vec<Outflow<Net>>| outflow_arcs(arcs@)),
        }
    }
}

impl<Net: NetId> Default for Flows<Net> {
    fn default() -> (flows: Self)
        ensures
            flows@.inflows.len() == 0,
            flows@.outflows.len() == 0,
    {
        Flows::new()
    }
}

impl<Net: NetId> Flows<Net> {
    /// Returns an instance that holds no arcs.
    pub fn new() -> (flows: Self)
        ensures
            flows@.inflows.len() == 0,
            flows@.outflows.len() == 0,
    {
        Flows { inflows: Vec::new(), outflows: Vec::new() }
    }

    /// Adds the preset of the next transition.
    pub fn add_inflows(&mut self, inflows: Vec<Inflow<Net>>)
        ensures
            final(self)@.inflows == old(self)@.inflows.push(inflow_arcs(inflows@)),
            final(self)@.outflows == old(self)@.outflows,
    {
        self.inflows.push(inflows);
        assert(self@.inflows =~= old(self)@.inflows.push(inflow_arcs(inflows@)));
    }

    /// Adds the postset of the next transition.
    pub fn add_outflows(&mut self, outflows: Vec<Outflow<Net>>)
        ensures
            final(self)@.outflows == old(self)@.outflows.push(outflow_arcs(outflows@)),
            final(self)@.inflows == old(self)@.inflows,
    {
        self.outflows.push(outflows);
        assert(self@.outflows =~= old(self)@.outflows.push(outflow_arcs(outflows@)));
    }

    /// Returns the preset of a transition that got one.
    pub fn inflows(&self, trans: TransId<Net>) -> (inflows: &[Inflow<Net>])
        requires
            trans@ < self@.inflows.len(),
        ensures
            inflow_arcs(inflows@) == self@.inflows[trans@ as int],
    {
        self.inflows[trans.index()].as_slice()
    }

    /// Returns the postset of a transition that got one.
    pub fn outflows(&self, trans: TransId<Net>) -> (outflows: &[Outflow<Net>])
        requires
            trans@ < self@.outflows.len(),
        ensures
            outflow_arcs(outflows@) == self@.outflows[trans@ as int],
    {
        self.outflows[trans.index()].as_slice()
    }
}

} // verus!
