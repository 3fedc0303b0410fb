//! Petri net places.

use crate::net::kind::{kind_index_entries, type_id_of, KindIndex, KindView, RegistryView};
use crate::net::{BuildError, NetId};
use std::any::TypeId;
use std::marker::PhantomData;
use vstd::prelude::*;
use vstd::std_specs::cmp::PartialEqSpecImpl;

verus! {

/// Place belonging to a Petri net.
///
/// May represent different concepts depending on the context,
/// commonly used to represent some state or condition.
pub trait Place<Net: NetId>: Send + Sync + 'static {}

/// Numbered [`Place`] compatible with any Petri net for convenience.
pub enum Pn<const N: usize> {
    /// The only value of the kind.
    Kind,
}

impl<Net: NetId, const N: usize> Place<Net> for Pn<N> {}

/// Reference to a [`Place`] in a Petri net.
#[derive(Debug, Hash, PartialOrd, Ord)]
pub struct PlaceId<Net: NetId>(usize, PhantomData<Net>);

impl<Net: NetId> View for PlaceId<Net> {
    type V = nat;

    /// The index of the place in its net's table of places.
    closed spec fn view(&self) -> nat {
        self.0 as nat
    }
}

impl<Net: NetId> Clone for PlaceId<Net> {
    fn clone(&self) -> (id: Self)
        ensures
            id == *self,
    {
        PlaceId(self.0, PhantomData)
    }
}

impl<Net: NetId> Copy for PlaceId<Net> {}

impl<Net: NetId> PartialEq for PlaceId<Net> {
    fn eq(&self, other: &Self) -> (equal: bool) {
        self.0 == other.0
    }
}

impl<Net: NetId> Eq for PlaceId<Net> {}

impl<Net: NetId> PartialEqSpecImpl for PlaceId<Net> {
    open spec fn obeys_eq_spec() -> bool {
        true
    }

    open spec fn eq_spec(&self, other: &Self) -> bool {
        self@ == other@
    }
}

impl<Net: NetId> Default for PlaceId<Net> {
    fn default() -> (id: Self)
        ensures
            id@ == 0,
    {
        PlaceId(0, PhantomData)
    }
}

impl<Net: NetId> PlaceId<Net> {
    /// Creates a new [`PlaceId`].
    ///
    /// The `index` is a unique value associated with each type of place in a
    /// given Petri net: the number of places that were registered with the
    /// net before it.
    pub(crate) fn new(index: usize) -> (id: Self)
        ensures
            id@ == index,
    {
        PlaceId(index, PhantomData)
    }

    /// Returns the index of the current place.
    pub fn index(self) -> (index: usize)
        ensures
            index == self@,
    {
        self.0
    }
}

/// What a lookup found, with the identifier as its index.
pub open spec fn found_index<Net: NetId>(found: Option<PlaceId<Net>>) -> Option<nat> {
    match found {
        Some(id) => Some(id@),
        None => None,
    }
}

/// The outcome of a registration, with the identifier as its index.
pub open spec fn indexed<Net: NetId>(outcome: Result<PlaceId<Net>, BuildError>) -> Result<
    nat,
    BuildError,
> {
    match outcome {
        Ok(id) => Ok(id@),
        Err(error) => Err(error),
    }
}

/// A value describing a [`Place`], which may or may not correspond to a Rust type.
#[derive(Debug)]
pub struct PlaceMetadata<Net: NetId> {
    name: String,
    type_id: Option<TypeId>,
    _net: PhantomData<Net>,
}

impl<Net: NetId> View for PlaceMetadata<Net> {
    type V = KindView;

    closed spec fn view(&self) -> KindView {
        KindView { name: self.name@, kind: self.type_id }
    }
}

impl<Net: NetId> Clone for PlaceMetadata<Net> {
    fn clone(&self) -> (meta: Self)
        ensures
            meta@ == self@,
    {
        Self { name: self.name.clone(), type_id: self.type_id, _net: PhantomData }
    }
}

impl<Net: NetId> Default for PlaceMetadata<Net> {
    fn default() -> (meta: Self)
        ensures
            meta@.kind is None,
            meta@.name.len() == 0,
    {
        Self { name: String::new(), type_id: None, _net: PhantomData }
    }
}

impl<Net: NetId> PlaceMetadata<Net> {
    /// Create a new [`PlaceMetadata`] for the place `P`.
    ///
    /// The Rust type is the name of such a place: its display name is empty.
    pub fn new<P: Place<Net>>() -> (meta: Self)
        ensures
            meta@.kind is Some,
            meta@.name.len() == 0,
    {
        Self { name: String::new(), type_id: Some(type_id_of::<P>()), _net: PhantomData }
    }

    /// Create a new [`PlaceMetadata`] for the place `P`, with a display name.
    pub fn new_named<P: Place<Net>>(name: &str) -> (meta: Self)
        ensures
            meta@.kind is Some,
            meta@.name == name@,
    {
        Self { name: name.to_owned(), type_id: Some(type_id_of::<P>()), _net: PhantomData }
    }

    /// Returns a new [`PlaceMetadata`] for an "anonymous" place (not a Rust type).
    pub fn new_anon(name: &str) -> (meta: Self)
        ensures
            meta@.kind is None,
            meta@.name == name@,
    {
        Self { name: name.to_owned(), type_id: None, _net: PhantomData }
    }

    /// Returns the name of the place.
    pub fn name(&self) -> (name: &str)
        ensures
            name@ == self@.name,
    {
        self.name.as_str()
    }

    /// Returns the [`TypeId`] of the place, which must correspond to a Rust type.
    pub fn type_id(&self) -> (kind: TypeId)
        requires
            self@.kind is Some,
        ensures
            self@.kind == Some(kind),
    {
        match self.type_id {
            Some(kind) => kind,
            None => vstd::pervasive::unreached(),
        }
    }

    /// Returns the [`TypeId`] of the place.
    ///
    /// Returns `None` if the place does not correspond to a Rust type.
    pub fn get_type_id(&self) -> (kind: Option<TypeId>)
        ensures
            kind == self@.kind,
    {
        self.type_id
    }
}

/// The places registered with a net.
#[derive(Debug)]
pub struct Places<Net: NetId> {
    places: Vec<PlaceMetadata<Net>>,
    indices: KindIndex,
}

impl<Net: NetId> View for Places<Net> {
    type V = RegistryView;

    closed spec fn view(&self) -> RegistryView {
        RegistryView {
            records: self.places@.map_values(|meta: PlaceMetadata<Net>| meta@),
            index: kind_index_entries(self.indices).map_values(|index: usize| index as nat),
        }
    }
}

impl<Net: NetId> Default for Places<Net> {
    fn default() -> (places: Self)
        ensures
            places@ == RegistryView::empty(),
            places@.wf(),
    {
        Places::new()
    }
}

impl<Net: NetId> Places<Net> {
    /// Returns an instance with no place registered.
    pub fn new() -> (places: Self)
        ensures
            places@ == RegistryView::empty(),
            places@.wf(),
    {
        let places = Places { places: Vec::new(), indices: KindIndex::new() };
        assert(places@.records =~= Seq::empty());
        assert(places@.index =~= Map::empty());
        places
    }

    /// Registers a place of type `P` with this instance.
    ///
    /// The returned `PlaceId` is specific to the Petri net instance
    /// it was retrieved from and should not be used with another Petri net.
    ///
    /// Refused if a place of this type has already been registered; the
    /// instance is then left as it was.
    pub fn register<P: Place<Net>>(&mut self) -> (outcome: Result<PlaceId<Net>, BuildError>)
        requires
            old(self)@.wf(),
        ensures
            final(self)@.wf(),
            exists|record: KindView|
                record.kind is Some && record.name.len() == 0 && #[trigger] old(self)@.registered(
                    record,
                    indexed(outcome),
                    final(self)@,
                ),
    {
        let meta = PlaceMetadata::new::<P>();
        let ghost record = meta@;
        let outcome = self.register_kind(meta);
        assert(old(self)@.registered(record, indexed(outcome), self@));
        outcome
    }

    /// Registers the kind that `meta` describes, as [`Places::register`]
    /// does for a Rust type.
    pub fn register_kind(&mut self, meta: PlaceMetadata<Net>) -> (outcome: Result<
        PlaceId<Net>,
        BuildError,
    >)
        requires
            old(self)@.wf(),
            meta@.kind is Some,
        ensures
            final(self)@.wf(),
            old(self)@.registered(meta@, indexed(outcome), final(self)@),
    {
        let kind = meta.type_id();
        let index = self.places.len();
        if self.indices.try_insert(kind, index) {
            self.places.push(meta);
            assert(self@.records =~= old(self)@.records.push(meta@));
            assert(self@.index =~= old(self)@.index.insert(kind, index as nat));
            Ok(PlaceId::new(index))
        } else {
            assert(self@.index =~= old(self)@.index);
            Err(BuildError::DuplicateRegistration)
        }
    }

    /// Registers a place via its metadata.
    ///
    /// The returned `PlaceId` is specific to the Petri net instance
    /// it was retrieved from and should not be used with another Petri net.
    ///
    /// ## Note
    ///
    /// If this method is called multiple times with identical metadata,
    /// a distinct [`PlaceId`] will be created for each one.
    pub fn register_with_meta(&mut self, meta: PlaceMetadata<Net>) -> (id: PlaceId<Net>)
        requires
            old(self)@.wf(),
        ensures
            final(self)@.wf(),
            final(self)@ == old(self)@.push(meta@),
            id@ == old(self)@.len(),
    {
        let index = self.places.len();
        self.places.push(meta);
        assert(self@.records =~= old(self)@.records.push(meta@));
        PlaceId::new(index)
    }

    /// Returns the number of places registered with this instance.
    pub fn len(&self) -> (len: usize)
        ensures
            len == self@.len(),
    {
        self.places.len()
    }

    /// Returns `true` if there are no places registered with this instance.
    /// Otherwise, this returns `false`.
    pub fn is_empty(&self) -> (empty: bool)
        ensures
            empty == (self@.len() == 0),
    {
        self.places.len() == 0
    }

    /// Gets the metadata associated with the given place.
    pub fn metadata(&self, id: PlaceId<Net>) -> (meta: &PlaceMetadata<Net>)
        requires
            id@ < self@.len(),
        ensures
            meta@ == self@.records[id@ as int],
    {
        &self.places[id.index()]
    }

    /// Returns the name associated with the given place.
    pub fn name(&self, id: PlaceId<Net>) -> (name: &str)
        requires
            id@ < self@.len(),
        ensures
            name@ == self@.records[id@ as int].name,
    {
        self.metadata(id).name()
    }

    /// Returns the [`PlaceId`] associated with the given `type_id`, if it has
    /// been registered with the Petri net.
    ///
    /// The returned `PlaceId` is specific to the Petri net instance
    /// it was retrieved from and should not be used with another Petri net.
    pub fn id_from_erased(&self, type_id: TypeId) -> (found: Option<PlaceId<Net>>)
        ensures
            found_index(found) == self@.lookup(type_id),
    {
        match self.indices.get(type_id) {
            Some(index) => Some(PlaceId::new(index)),
            None => None,
        }
    }

    /// Returns the [`PlaceId`] of the given [`Place`] of type `P`, if it has
    /// been registered with the Petri net.
    ///
    /// The returned `PlaceId` is specific to the Petri net instance
    /// it was retrieved from and should not be used with another Petri net.
    pub fn id<P: Place<Net>>(&self) -> (found: Option<PlaceId<Net>>)
        ensures
            exists|kind: TypeId| found_index(found) == #[trigger] self@.lookup(kind),
    {
        let kind = type_id_of::<P>();
        let found = self.id_from_erased(kind);
        assert(found_index(found) == self@.lookup(kind));
        found
    }
}

} // verus!
