//! Kinds: the Rust types that stand for places and transitions, as the values
//! by which a net tells them apart.

use crate::net::marking::ArcView;
use crate::net::BuildError;
use bevy_utils::StableHashMap;
use std::any::TypeId;
use vstd::prelude::*;

verus! {

/// `std::any::TypeId`, carried through the library as an opaque value.
#[verifier::external_type_specification]
#[verifier::external_body]
pub struct ExTypeId(TypeId);

/// What is known of a place or of a transition besides its arcs: its display
/// name, and the kind that it was registered for, if any.
pub struct KindView {
    pub name: Seq<char>,
    pub kind: Option<TypeId>,
}

/// What a registry of places or of transitions holds: a record for each
/// identifier, in the order of registration, and the identifier that each
/// registered kind stands for.
pub struct RegistryView {
    pub records: Seq<KindView>,
    pub index: Map<TypeId, nat>,
}

impl RegistryView {
    /// Every kind that is registered stands for the record that names it.
    pub open spec fn wf(self) -> bool {
        forall|kind: TypeId| #[trigger]
            self.index.dom().contains(kind) ==> self.index[kind] < self.records.len()
                && self.records[self.index[kind] as int].kind == Some(kind)
    }

    /// The number of identifiers handed out.
    pub open spec fn len(self) -> nat {
        self.records.len()
    }

    /// Whether `kind` is registered.
    pub open spec fn has_kind(self, kind: TypeId) -> bool {
        self.index.dom().contains(kind)
    }

    /// The identifier that `kind` stands for, if it is registered.
    pub open spec fn lookup(self, kind: TypeId) -> Option<nat> {
        if self.has_kind(kind) {
            Some(self.index[kind])
        } else {
            None
        }
    }

    /// The registry with no identifier handed out.
    pub open spec fn empty() -> RegistryView {
        RegistryView { records: Seq::empty(), index: Map::empty() }
    }

    /// The registry after `record` got the next identifier, with no kind
    /// looked at.
    pub open spec fn push(self, record: KindView) -> RegistryView {
        RegistryView { records: self.records.push(record), index: self.index }
    }

    /// The registry after `record` was registered. A record without a kind
    /// gets the next identifier. One with a kind is refused where the kind is
    /// registered already; else it gets the next identifier, and its kind
    /// stands for it.
    pub open spec fn register(self, record: KindView) -> Result<RegistryView, BuildError> {
        match record.kind {
            Some(kind) => if self.has_kind(kind) {
                Err(BuildError::DuplicateRegistration)
            } else {
                Ok(
                    RegistryView {
                        records: self.records.push(record),
                        index: self.index.insert(kind, self.records.len()),
                    },
                )
            },
            None => Ok(self.push(record)),
        }
    }

    /// The identifier `id` was handed out for a kind, which stands for it.
    pub open spec fn named(self, id: nat) -> bool {
        &&& id < self.len()
        &&& self.records[id as int].kind matches Some(kind)
        &&& self.lookup(kind) == Some(id)
    }

    /// Every arc names a kind that is registered.
    pub open spec fn resolves(self, arcs: Seq<(KindView, nat)>) -> bool {
        forall|i: int|
            0 <= i < arcs.len() ==> ((#[trigger] arcs[i]).0.kind matches Some(kind)
                && self.has_kind(kind))
    }

    /// The arcs with the identifier that each kind stands for in place of
    /// the kind.
    pub open spec fn resolved(self, arcs: Seq<(KindView, nat)>) -> Seq<ArcView> {
        Seq::new(
            arcs.len(),
            |i: int| ArcView { place: self.index[arcs[i].0.kind->Some_0], weight: arcs[i].1 },
        )
    }

    /// A registration of the kind of `record` took the registry to `after`
    /// and ended in `outcome`: as [`RegistryView::register`] says, with the
    /// next identifier where it succeeded, and with the registry as it was
    /// where it did not.
    pub open spec fn registered(
        self,
        record: KindView,
        outcome: Result<nat, BuildError>,
        after: RegistryView,
    ) -> bool {
        match self.register(record) {
            Ok(registry) => outcome == Ok::<nat, BuildError>(self.len()) && after == registry,
            Err(error) => outcome == Err::<nat, BuildError>(error) && after == self,
        }
    }
}

/// Calls `TypeId::of::<K>()`. Nothing is claimed of the value that comes back.
#[verifier::external_body]
pub(crate) fn type_id_of<K: ?Sized + 'static>() -> TypeId {
    TypeId::of::<K>()
}

/// From kinds to the indices they were registered under: a
/// `bevy_utils::StableHashMap`, which is a `hashbrown::HashMap` with a fixed
/// hasher.
#[verifier::external_body]
#[derive(Debug)]
pub struct KindIndex {
    map: StableHashMap<TypeId, usize>,
}

/// The entries that a [`KindIndex`] holds.
pub uninterp spec fn kind_index_entries(index: KindIndex) -> Map<TypeId, usize>;

impl KindIndex {
    /// Calls `StableHashMap::default()`: hashbrown documents that the map it
    /// creates is empty.
    #[verifier::external_body]
    pub(crate) fn new() -> (index: KindIndex)
        ensures
            kind_index_entries(index) =~= Map::empty(),
    {
        KindIndex { map: StableHashMap::default() }
    }

    /// Calls `HashMap::get`: the value stored under `kind`, if the map holds
    /// the key.
    #[verifier::external_body]
    pub(crate) fn get(&self, kind: TypeId) -> (found: Option<usize>)
        ensures
            found == (if kind_index_entries(*self).dom().contains(kind) {
                Some(kind_index_entries(*self)[kind])
            } else {
                None
            }),
    {
        self.map.get(&kind).copied()
    }

    /// Calls `HashMap::try_insert`: where the map holds the key already,
    /// nothing is updated and the call fails; else the pair is inserted.
    #[verifier::external_body]
    pub(crate) fn try_insert(&mut self, kind: TypeId, index: usize) -> (inserted: bool)
        ensures
            inserted == !kind_index_entries(*old(self)).dom().contains(kind),
            kind_index_entries(*final(self)) == (if inserted {
                kind_index_entries(*old(self)).insert(kind, index)
            } else {
                kind_index_entries(*old(self))
            }),
    {
        self.map.try_insert(kind, index).is_ok()
    }
}

} // verus!
