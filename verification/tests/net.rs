use petnat::{NetId, PetriNet, Place, Pn, Tn, Trans, W};

#[derive(Debug)]
enum Minimal {}
#[derive(Debug)]
enum ProdCons {}
#[derive(Debug)]
enum Star {}
#[derive(Debug)]
enum Ring {}
#[derive(Debug)]
enum Choice {}
#[derive(Debug)]
enum Anon<const MIXED: bool> {}

enum Place0 {}
enum Place1 {}
enum Place2 {}
enum Place3 {}
enum Place4 {}

enum Trans0 {}
enum Trans1 {}

impl NetId for Minimal {}
impl NetId for ProdCons {}
impl NetId for Star {}
impl NetId for Ring {}
impl NetId for Choice {}
impl<const MIXED: bool> NetId for Anon<MIXED> {}

impl<Net: NetId> Place<Net> for Place0 {}
impl<Net: NetId> Place<Net> for Place1 {}
impl<Net: NetId> Place<Net> for Place2 {}
impl<Net: NetId> Place<Net> for Place3 {}
impl<Net: NetId> Place<Net> for Place4 {}

impl<Net: NetId> Trans<Net> for Trans0 {}
impl<Net: NetId> Trans<Net> for Trans1 {}

// (p0) -> |t0| -> (p1)
fn minimal() -> PetriNet<Minimal> {
    let mut net = PetriNet::new();
    net.add_place::<Place0>().unwrap();
    net.add_place::<Place1>().unwrap();
    net.add_trans::<Trans0, (Place0, W<1>), (Place1, W<1>)>().unwrap();
    net.build()
}

// Transitions with no input places are token sources,
// and transitions with no output places are token sinks
// |t0| -> (p0) -> |t1|
fn producer_consumer() -> PetriNet<ProdCons> {
    let mut net = PetriNet::new();
    net.add_place::<Place0>().unwrap();
    net.add_trans::<Trans0, (), (Place0, W<1>)>().unwrap();
    net.add_trans::<Trans1, (Place0, W<1>), ()>().unwrap();
    net.build()
}

// (p0) -\            /-> (p2)
//        >-> |t0| --<--> (p3)
// (p1) -/            \-> (p4)
fn weighted_star() -> PetriNet<Star> {
    let mut net = PetriNet::new();
    net.add_place::<Place0>().unwrap();
    net.add_place::<Place1>().unwrap();
    net.add_place::<Place2>().unwrap();
    net.add_place::<Place3>().unwrap();
    net.add_place::<Place4>().unwrap();
    net.add_trans::<
        Trans0,
        ((Place0, W<1>), (Place1, W<2>)),
        ((Place2, W<1>), (Place3, W<2>), (Place4, W<3>)),
    >()
        .unwrap();
    net.build()
}

// Two places sending a token back and forth through two transitions in opposite directions:
//  /--> |t0| -> (p1)
// (p0) <- |t1| <--/
fn ring() -> PetriNet<Ring> {
    let mut net = PetriNet::new();
    net.add_place::<Place0>().unwrap();
    net.add_place::<Place1>().unwrap();
    net.add_trans::<Trans0, (Place0, W<1>), (Place1, W<1>)>().unwrap();
    net.add_trans::<Trans1, (Place1, W<1>), (Place0, W<1>)>().unwrap();
    net.build()
}

// Two transitions sharing a preset place. When one of them fires, the other ceases to be enabled.
// (p0) --> |t0| -\
// (p1) -<         >-> (p3)
// (p2) --> |t1| -/
fn choice() -> PetriNet<Choice> {
    let mut net = PetriNet::new();
    net.add_place::<Place0>().unwrap();
    net.add_place::<Place1>().unwrap();
    net.add_place::<Place2>().unwrap();
    net.add_place::<Place3>().unwrap();
    net.add_trans::<Trans0, ((Place0, W<1>), (Place1, W<1>)), (Place3, W<1>)>().unwrap();
    net.add_trans::<Trans1, ((Place1, W<1>), (Place2, W<1>)), (Place3, W<1>)>().unwrap();
    net.build()
}

#[test]
fn test_minimal() {
    let net = minimal();
    let mut token = net.spawn_token();
    net.mark::<Place0>(&mut token, 1).unwrap();
    assert!(net.fire::<Trans0>(&mut token).unwrap().is_ok());
    assert_eq!(net.marks::<Place0>(&token).unwrap(), 0);
    assert_eq!(net.marks::<Place1>(&token).unwrap(), 1);
}

#[test]
fn test_producer_consumer() {
    let net = producer_consumer();
    let mut token = net.spawn_token();
    assert!(net.fire::<Trans0>(&mut token).unwrap().is_ok());
    assert_eq!(net.marks::<Place0>(&token).unwrap(), 1);
    assert!(net.fire::<Trans1>(&mut token).unwrap().is_ok());
    assert_eq!(net.marks::<Place0>(&token).unwrap(), 0);
}

#[test]
fn test_weighted_star() {
    let net = weighted_star();
    let mut token = net.spawn_token();
    net.mark::<Place0>(&mut token, 1).unwrap();
    net.mark::<Place1>(&mut token, 2).unwrap();
    assert!(net.fire::<Trans0>(&mut token).unwrap().is_ok());
    assert_eq!(net.marks::<Place0>(&token).unwrap(), 0);
    assert_eq!(net.marks::<Place1>(&token).unwrap(), 0);
    assert_eq!(net.marks::<Place2>(&token).unwrap(), 1);
    assert_eq!(net.marks::<Place3>(&token).unwrap(), 2);
    assert_eq!(net.marks::<Place4>(&token).unwrap(), 3);
}

#[test]
fn test_ring() {
    let net = ring();
    let mut token = net.spawn_token();
    net.mark::<Place0>(&mut token, 1).unwrap();
    assert_eq!(net.marks::<Place0>(&token).unwrap(), 1);
    assert_eq!(net.marks::<Place1>(&token).unwrap(), 0);
    assert!(net.fire::<Trans0>(&mut token).unwrap().is_ok());
    assert_eq!(net.marks::<Place0>(&token).unwrap(), 0);
    assert_eq!(net.marks::<Place1>(&token).unwrap(), 1);
    assert!(net.fire::<Trans1>(&mut token).unwrap().is_ok());
    assert_eq!(net.marks::<Place0>(&token).unwrap(), 1);
    assert_eq!(net.marks::<Place1>(&token).unwrap(), 0);
}

#[test]
fn test_choice() {
    let net = choice();
    let mut token = net.spawn_token();
    net.mark::<Place0>(&mut token, 1).unwrap();
    net.mark::<Place1>(&mut token, 1).unwrap();
    net.mark::<Place2>(&mut token, 1).unwrap();
    assert!(net.enabled::<Trans0>(&token).unwrap());
    assert!(net.enabled::<Trans1>(&token).unwrap());
    assert!(net.fire::<Trans0>(&mut token).unwrap().is_ok());
    assert!(!net.enabled::<Trans1>(&token).unwrap());
}

#[test]
fn test_pure_anon_net() {
    let mut net = PetriNet::<Anon<false>>::new();
    let p = ["p0", "p1", "p2"].map(|pn| net.add_place_anon(pn));
    let t0 = net
        .add_trans_anon("t0", &[(p[0], 1), (p[1], 1)], &[(p[2], 1)])
        .unwrap();
    let mut token = net.spawn_token();
    net.mark_by_id(p[0], &mut token, 1);
    net.mark_by_id(p[1], &mut token, 1);
    assert!(net.fire_by_id(t0, &mut token).is_ok());
    assert_eq!(net.marks_by_id(p[2], &token), 1);
}

#[test]
fn test_mixed_net() {
    let mut net = PetriNet::<Anon<true>>::new();
    net.add_place::<Pn<0>>().unwrap();
    net.add_place::<Pn<1>>().unwrap();
    net.add_place::<Pn<3>>().unwrap();
    let p2 = net.add_place_anon("p2");
    let (p1, _) = net.place::<Pn<1>>().unwrap();
    let (p3, _) = net.place::<Pn<3>>().unwrap();
    net.add_trans::<Tn<0>, ((Pn<0>, W<1>), (Pn<1>, W<1>)), (Pn<3>, W<1>)>()
        .unwrap();
    let t1 = net
        .add_trans_anon("t1", &[(p1, 1), (p2, 1)], &[(p3, 1)])
        .unwrap();
    let mut token_a = net.spawn_token();
    net.mark::<Pn<0>>(&mut token_a, 1).unwrap();
    net.mark::<Pn<1>>(&mut token_a, 1).unwrap();
    net.mark_by_id(p2, &mut token_a, 1);
    let mut token_b = token_a.clone();
    assert!(net.fire::<Tn<0>>(&mut token_a).unwrap().is_ok());
    assert_eq!(net.marks::<Pn<3>>(&token_a).unwrap(), 1);
    assert!(net.fire_by_id(t1, &mut token_b).is_ok());
    assert_eq!(net.marks::<Pn<3>>(&token_b).unwrap(), 1);
}
