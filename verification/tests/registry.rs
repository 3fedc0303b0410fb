use petnat::{
    Arcs, BuildError, Flows, Inflow, Nn, Outflow, PetriNet, PlaceId, PlaceMetadata, Places, Pn,
    Tn, TransId, TransMetadata, Transitions, W,
};
use std::any::TypeId;

type Net = Nn<7>;

#[test]
fn place_ids_are_dense_and_in_registration_order() {
    let mut net = PetriNet::<Net>::new();
    let a = net.add_place::<Pn<5>>().unwrap();
    let b = net.add_place_anon("b");
    let c = net.add_place::<Pn<2>>().unwrap();
    assert_eq!(a.index(), 0);
    assert_eq!(b.index(), 1);
    assert_eq!(c.index(), 2);
    assert_eq!(net.num_places(), 3);
}

#[test]
fn transition_ids_are_dense_and_in_registration_order() {
    let mut net = PetriNet::<Net>::new();
    let p = net.add_place_anon("p");
    let a = net.add_trans_anon("a", &[], &[(p, 1)]).unwrap();
    let b = net.add_trans::<Tn<9>, (), (Pn<0>, W<1>)>();
    assert_eq!(b, Err(BuildError::UnknownPlace));
    let c = net.add_trans::<Tn<9>, (), ()>().unwrap();
    assert_eq!(a.index(), 0);
    assert_eq!(c.index(), 1);
    assert_eq!(net.num_transitions(), 2);
}

#[test]
fn anonymous_places_of_one_name_are_distinct() {
    let mut net = PetriNet::<Net>::new();
    let first = net.add_place_anon("same");
    let second = net.add_place_anon("same");
    assert_ne!(first, second);
    assert_eq!(first.index(), 0);
    assert_eq!(second.index(), 1);
}

#[test]
fn registering_a_place_twice_is_refused() {
    let mut net = PetriNet::<Net>::new();
    assert_eq!(net.add_place::<Pn<0>>().map(PlaceId::index), Ok(0));
    assert_eq!(net.add_place::<Pn<1>>().map(PlaceId::index), Ok(1));
    assert_eq!(net.add_place::<Pn<0>>(), Err(BuildError::DuplicateRegistration));
    assert_eq!(net.num_places(), 2);
    assert_eq!(net.add_place::<Pn<2>>().map(PlaceId::index), Ok(2));
}

#[test]
fn registering_a_transition_twice_is_refused() {
    let mut net = PetriNet::<Net>::new();
    net.add_place::<Pn<0>>().unwrap();
    assert_eq!(
        net.add_trans::<Tn<0>, (Pn<0>, W<1>), ()>().map(TransId::index),
        Ok(0)
    );
    assert_eq!(
        net.add_trans::<Tn<0>, (), (Pn<0>, W<2>)>(),
        Err(BuildError::DuplicateRegistration)
    );
    assert_eq!(net.num_transitions(), 1);
}

#[test]
fn a_duplicate_transition_is_reported_before_an_unknown_place() {
    let mut net = PetriNet::<Net>::new();
    net.add_trans::<Tn<0>, (), ()>().unwrap();
    assert_eq!(
        net.add_trans::<Tn<0>, (Pn<4>, W<1>), ()>(),
        Err(BuildError::DuplicateRegistration)
    );
}

#[test]
fn an_arc_to_an_unregistered_kind_is_refused() {
    let mut net = PetriNet::<Net>::new();
    net.add_place::<Pn<0>>().unwrap();
    assert_eq!(
        net.add_trans::<Tn<0>, (Pn<0>, W<1>), (Pn<1>, W<1>)>(),
        Err(BuildError::UnknownPlace)
    );
    assert_eq!(
        net.add_trans::<Tn<0>, (Pn<1>, W<1>), (Pn<0>, W<1>)>(),
        Err(BuildError::UnknownPlace)
    );
    assert_eq!(net.num_transitions(), 0);
    assert!(net.trans::<Tn<0>>().is_none());
    assert_eq!(
        net.add_trans::<Tn<0>, (Pn<0>, W<1>), (Pn<0>, W<1>)>().map(TransId::index),
        Ok(0)
    );
}

#[test]
fn an_arc_to_an_unregistered_identifier_is_refused() {
    let mut large = PetriNet::<Net>::new();
    let first = large.add_place_anon("first");
    let second = large.add_place_anon("second");
    let mut small = PetriNet::<Net>::new();
    small.add_place_anon("only");
    assert_eq!(
        small.add_trans_anon("t", &[(first, 1), (second, 1)], &[]),
        Err(BuildError::UnknownPlace)
    );
    assert_eq!(
        small.add_trans_anon("t", &[], &[(second, 1)]),
        Err(BuildError::UnknownPlace)
    );
    assert_eq!(small.num_transitions(), 0);
    assert_eq!(
        small.add_trans_anon("t", &[(first, 1)], &[(first, 2)]).map(TransId::index),
        Ok(0)
    );
}

#[test]
fn a_kind_is_found_under_the_identifier_it_was_registered_with() {
    let mut net = PetriNet::<Net>::new();
    net.add_place::<Pn<3>>().unwrap();
    net.add_place_anon("anon");
    net.add_place::<Pn<1>>().unwrap();
    net.add_place::<Pn<2>>().unwrap();
    let (one, meta) = net.place::<Pn<1>>().unwrap();
    assert_eq!(one.index(), 2);
    assert_eq!(meta.get_type_id(), Some(TypeId::of::<Pn<1>>()));
    assert_eq!(meta.type_id(), TypeId::of::<Pn<1>>());
    assert_eq!(meta.name(), "");
    assert_eq!(net.place::<Pn<3>>().unwrap().0.index(), 0);
    assert_eq!(net.place::<Pn<2>>().unwrap().0.index(), 3);
    assert!(net.place::<Pn<0>>().is_none());
}

#[test]
fn a_transition_is_found_under_the_identifier_it_was_registered_with() {
    let mut net = PetriNet::<Net>::new();
    net.add_trans::<Tn<1>, (), ()>().unwrap();
    net.add_trans_anon("anon", &[], &[]).unwrap();
    net.add_trans::<Tn<0>, (), ()>().unwrap();
    let (zero, meta) = net.trans::<Tn<0>>().unwrap();
    assert_eq!(zero.index(), 2);
    assert_eq!(meta.get_type_id(), Some(TypeId::of::<Tn<0>>()));
    assert_eq!(net.trans::<Tn<1>>().unwrap().0.index(), 0);
    assert!(net.trans::<Tn<2>>().is_none());
}

#[test]
fn metadata_of_a_kind_and_of_an_anonymous_place() {
    let kind = PlaceMetadata::<Net>::new::<Pn<0>>();
    assert_eq!(kind.get_type_id(), Some(TypeId::of::<Pn<0>>()));
    assert_eq!(kind.name(), "");
    let named = PlaceMetadata::<Net>::new_named::<Pn<0>>("idle");
    assert_eq!(named.type_id(), TypeId::of::<Pn<0>>());
    assert_eq!(named.name(), "idle");
    let anon = PlaceMetadata::<Net>::new_anon("waiting");
    assert_eq!(anon.get_type_id(), None);
    assert_eq!(anon.name(), "waiting");
}

#[test]
fn metadata_of_a_kind_and_of_an_anonymous_transition() {
    let kind = TransMetadata::<Net>::new::<Tn<0>>();
    assert_eq!(kind.get_type_id(), Some(TypeId::of::<Tn<0>>()));
    assert_eq!(kind.type_id(), TypeId::of::<Tn<0>>());
    assert_eq!(kind.name(), "");
    let named = TransMetadata::<Net>::new_named::<Tn<0>>("start");
    assert_eq!(named.get_type_id(), Some(TypeId::of::<Tn<0>>()));
    assert_eq!(named.name(), "start");
    let anon = TransMetadata::<Net>::new_anon("stop");
    assert_eq!(anon.get_type_id(), None);
    assert_eq!(anon.name(), "stop");
}

#[test]
fn registering_by_metadata() {
    let mut net = PetriNet::<Net>::new();
    let idle = net
        .add_place_erased(PlaceMetadata::new_named::<Pn<0>>("idle"))
        .unwrap();
    assert_eq!(idle.index(), 0);
    assert_eq!(
        net.add_place_erased(PlaceMetadata::new::<Pn<0>>()),
        Err(BuildError::DuplicateRegistration)
    );
    assert_eq!(
        net.add_place_erased(PlaceMetadata::new_anon("idle")).map(PlaceId::index),
        Ok(1)
    );
    assert_eq!(
        net.add_place_erased(PlaceMetadata::new_anon("idle")).map(PlaceId::index),
        Ok(2)
    );
    assert_eq!(net.place::<Pn<0>>().unwrap().1.name(), "idle");
    let start = net
        .add_trans_erased(
            TransMetadata::new_named::<Tn<0>>("start"),
            vec![(PlaceMetadata::new::<Pn<0>>(), 2)],
            vec![],
        )
        .unwrap();
    assert_eq!(start.index(), 0);
    assert_eq!(net.trans::<Tn<0>>().unwrap().1.name(), "start");
    assert_eq!(
        net.add_trans_erased(TransMetadata::new::<Tn<0>>(), vec![], vec![]),
        Err(BuildError::DuplicateRegistration)
    );
    assert_eq!(
        net.add_trans_erased(
            TransMetadata::new::<Tn<1>>(),
            vec![(PlaceMetadata::new_anon("idle"), 1)],
            vec![],
        ),
        Err(BuildError::UnknownPlace)
    );
    assert_eq!(
        net.add_trans_erased(TransMetadata::new_anon("start"), vec![], vec![])
            .map(TransId::index),
        Ok(1)
    );
    let mut token = net.spawn_token();
    net.mark_by_id(idle, &mut token, 2);
    assert!(net.fire_by_id(start, &mut token).is_ok());
    assert_eq!(net.marks_by_id(idle, &token), 0);
}

#[test]
fn the_place_registry_by_itself() {
    let mut places = Places::<Net>::new();
    assert!(places.is_empty());
    assert_eq!(places.len(), 0);
    assert!(places.id::<Pn<0>>().is_none());
    let zero = places.register::<Pn<0>>().unwrap();
    let anon = places.register_with_meta(PlaceMetadata::new_anon("anon"));
    let one = places.register_kind(PlaceMetadata::new_named::<Pn<1>>("one")).unwrap();
    assert_eq!((zero.index(), anon.index(), one.index()), (0, 1, 2));
    assert_eq!(places.register::<Pn<0>>(), Err(BuildError::DuplicateRegistration));
    assert_eq!(
        places.register_kind(PlaceMetadata::new::<Pn<1>>()),
        Err(BuildError::DuplicateRegistration)
    );
    assert!(!places.is_empty());
    assert_eq!(places.len(), 3);
    assert_eq!(places.id::<Pn<1>>(), Some(one));
    assert_eq!(places.id_from_erased(TypeId::of::<Pn<0>>()), Some(zero));
    assert_eq!(places.id_from_erased(TypeId::of::<Pn<2>>()), None);
    assert_eq!(places.name(anon), "anon");
    assert_eq!(places.name(one), "one");
    assert_eq!(places.metadata(zero).get_type_id(), Some(TypeId::of::<Pn<0>>()));
    assert_eq!(places.metadata(anon).get_type_id(), None);
}

#[test]
fn the_transition_registry_by_itself() {
    let mut transitions = Transitions::<Net>::new();
    assert!(transitions.is_empty());
    let zero = transitions.register::<Tn<0>>().unwrap();
    let anon = transitions.register_with_meta(TransMetadata::new_anon("anon"));
    assert_eq!((zero.index(), anon.index()), (0, 1));
    assert_eq!(
        transitions.register::<Tn<0>>(),
        Err(BuildError::DuplicateRegistration)
    );
    assert_eq!(transitions.len(), 2);
    assert_eq!(transitions.id::<Tn<0>>(), Some(zero));
    assert_eq!(transitions.id::<Tn<1>>(), None);
    assert_eq!(transitions.id_from_erased(TypeId::of::<Tn<0>>()), Some(zero));
    assert_eq!(transitions.name(anon), "anon");
    assert_eq!(transitions.metadata(zero).type_id(), TypeId::of::<Tn<0>>());
}

#[test]
fn flows_give_back_the_arcs_of_each_transition() {
    let mut net = PetriNet::<Net>::new();
    let p = net.add_place_anon("p");
    let q = net.add_place_anon("q");
    let first = net.add_trans_anon("first", &[], &[]).unwrap();
    let second = net.add_trans_anon("second", &[], &[]).unwrap();
    let mut flows = Flows::<Net>::new();
    flows.add_inflows(vec![Inflow { source: p, weight: 2 }]);
    flows.add_outflows(vec![]);
    flows.add_inflows(vec![]);
    flows.add_outflows(vec![
        Outflow { target: q, weight: 3 },
        Outflow { target: p, weight: 1 },
    ]);
    assert_eq!(flows.inflows(first).len(), 1);
    assert_eq!(flows.inflows(first)[0].source, p);
    assert_eq!(flows.inflows(first)[0].weight, 2);
    assert!(flows.outflows(first).is_empty());
    assert!(flows.inflows(second).is_empty());
    assert_eq!(flows.outflows(second).len(), 2);
    assert_eq!(flows.outflows(second)[0].target, q);
    assert_eq!(flows.outflows(second)[0].weight, 3);
    assert_eq!(flows.outflows(second)[1].target, p);
    assert_eq!(flows.outflows(second)[1].weight, 1);
}

#[test]
fn arcs_written_as_types_keep_their_order_and_weights() {
    assert!(<() as Arcs<Net>>::erased().is_empty());
    let single = <(Pn<4>, W<7>) as Arcs<Net>>::erased();
    assert_eq!(single.len(), 1);
    assert_eq!(single[0].0.get_type_id(), Some(TypeId::of::<Pn<4>>()));
    assert_eq!(single[0].1, 7);
    let one = <((Pn<4>, W<7>),) as Arcs<Net>>::erased();
    assert_eq!(one.len(), 1);
    assert_eq!(one[0].0.get_type_id(), Some(TypeId::of::<Pn<4>>()));
    assert_eq!(one[0].1, 7);
    let three = <((Pn<2>, W<1>), (Pn<0>, W<0>), (Pn<1>, W<5>)) as Arcs<Net>>::erased();
    let kinds: Vec<Option<TypeId>> = three.iter().map(|arc| arc.0.get_type_id()).collect();
    let weights: Vec<usize> = three.iter().map(|arc| arc.1).collect();
    assert_eq!(
        kinds,
        vec![
            Some(TypeId::of::<Pn<2>>()),
            Some(TypeId::of::<Pn<0>>()),
            Some(TypeId::of::<Pn<1>>())
        ]
    );
    assert_eq!(weights, vec![1, 0, 5]);
}

#[test]
fn fifteen_arcs_written_as_types() {
    type Fifteen = (
        (Pn<0>, W<15>),
        (Pn<1>, W<14>),
        (Pn<2>, W<13>),
        (Pn<3>, W<12>),
        (Pn<4>, W<11>),
        (Pn<5>, W<10>),
        (Pn<6>, W<9>),
        (Pn<7>, W<8>),
        (Pn<8>, W<7>),
        (Pn<9>, W<6>),
        (Pn<10>, W<5>),
        (Pn<11>, W<4>),
        (Pn<12>, W<3>),
        (Pn<13>, W<2>),
        (Pn<14>, W<1>),
    );
    let arcs = <Fifteen as Arcs<Net>>::erased();
    let weights: Vec<usize> = arcs.iter().map(|arc| arc.1).collect();
    assert_eq!(weights, vec![15, 14, 13, 12, 11, 10, 9, 8, 7, 6, 5, 4, 3, 2, 1]);
    assert_eq!(arcs[0].0.get_type_id(), Some(TypeId::of::<Pn<0>>()));
    assert_eq!(arcs[7].0.get_type_id(), Some(TypeId::of::<Pn<7>>()));
    assert_eq!(arcs[14].0.get_type_id(), Some(TypeId::of::<Pn<14>>()));
}

fn two_places(net: PetriNet<Net>) -> PetriNet<Net> {
    let mut net = net;
    net.add_place::<Pn<0>>().unwrap();
    net.add_place::<Pn<1>>().unwrap();
    net
}

fn one_transition(net: PetriNet<Net>) -> PetriNet<Net> {
    let mut net = net;
    net.add_trans::<Tn<0>, (Pn<0>, W<1>), (Pn<1>, W<1>)>().unwrap();
    net
}

#[test]
fn composing_the_configuration_of_a_net() {
    let net = PetriNet::<Net>::new()
        .compose(two_places)
        .compose(one_transition)
        .build();
    assert_eq!(net.num_places(), 2);
    assert_eq!(net.num_transitions(), 1);
    assert_eq!(net.place::<Pn<1>>().unwrap().0.index(), 1);
}

#[test]
fn building_a_net_changes_nothing() {
    let mut net = PetriNet::<Net>::default();
    assert_eq!(net.num_places(), 0);
    assert_eq!(net.num_transitions(), 0);
    let p = net.add_place_anon("p");
    // a sink and a source need no place on one side
    let sink = net.add_trans_anon("sink", &[(p, 1)], &[]).unwrap();
    let source = net.add_trans_anon("source", &[], &[(p, 1)]).unwrap();
    let net = net.build();
    assert_eq!(net.num_places(), 1);
    assert_eq!(net.num_transitions(), 2);
    let mut token = net.spawn_token();
    assert!(net.fire_by_id(sink, &mut token).is_err());
    assert!(net.fire_by_id(source, &mut token).is_ok());
    assert!(net.fire_by_id(sink, &mut token).is_ok());
    assert_eq!(token.total_marks(), 0);
}

#[test]
fn identifiers_compare_by_their_index() {
    let mut net = PetriNet::<Net>::new();
    let p = net.add_place_anon("p");
    let q = net.add_place_anon("q");
    let copy = p;
    assert!(p == copy);
    assert!(p != q);
    assert_eq!(PlaceId::<Net>::default().index(), 0);
    assert!(PlaceId::<Net>::default() == p);
    let t = net.add_trans_anon("t", &[], &[]).unwrap();
    let u = net.add_trans_anon("u", &[], &[]).unwrap();
    assert!(t == t.clone());
    assert!(t != u);
    assert_eq!(TransId::<Net>::default().index(), 0);
}

#[test]
fn identifiers_are_ordered_by_their_index() {
    let mut net = PetriNet::<Net>::new();
    let p = net.add_place_anon("p");
    let q = net.add_place_anon("q");
    assert!(p < q);
    assert!(q > p);
    assert!(p <= p);
    assert_eq!(p.max(q).index(), 1);
    let t = net.add_trans_anon("t", &[], &[]).unwrap();
    let u = net.add_trans_anon("u", &[], &[]).unwrap();
    assert!(t < u);
    let mut ids = vec![u, t];
    ids.sort();
    assert!(ids == vec![t, u]);
}
