//! Arcs written as types: a place's kind paired with a weight, and tuples of
//! such pairs.

use crate::net::place::{Place, PlaceMetadata};
use crate::net::NetId;
use vstd::prelude::*;

verus! {

/// Arc weight.
pub enum W<const N: usize> {
    /// The only value of the weight.
    Weight,
}

/// Weighted place-transition arcs.
pub trait Arcs<Net: NetId> {
    /// The weights of the arcs, in their order.
    spec fn weights() -> Seq<nat>;

    /// Returns a vector of erased arcs: for each arc the metadata of its
    /// place's kind, and its weight.
    fn erased() -> (arcs: Vec<(PlaceMetadata<Net>, usize)>)
        ensures
            arcs@.len() == Self::weights().len(),
            forall|i: int|
                0 <= i < arcs@.len() ==> (#[trigger] arcs@[i]).0@.kind is Some && arcs@[i].1
                    == Self::weights()[i],
    ;
}

// single place case
impl<Net: NetId, K0: Place<Net>, const W0: usize> Arcs<Net> for (K0, W<W0>) {
    open spec fn weights() -> Seq<nat> {
        seq![W0 as nat]
    }

    fn erased() -> (arcs: Vec<(PlaceMetadata<Net>, usize)>) {
        let mut arcs = Vec::new();
        arcs.push((PlaceMetadata::new::<K0>(), W0));
        arcs
    }
}

impl<Net: NetId> Arcs<Net> for () {
    open spec fn weights() -> Seq<nat> {
        seq![]
    }

    fn erased() -> (arcs: Vec<(PlaceMetadata<Net>, usize)>) {
        Vec::new()
    }
}

impl<Net: NetId, K0: Place<Net>, const W0: usize> Arcs<Net> for ((K0, W<W0>),) {
    open spec fn weights() -> Seq<nat> {
        seq![W0 as nat]
    }

    fn erased() -> (arcs: Vec<(PlaceMetadata<Net>, usize)>) {
        let mut arcs = Vec::new();
        arcs.push((PlaceMetadata::new::<K0>(), W0));
        arcs
    }
}

impl<
    Net: NetId,
    K0: Place<Net>,
    const W0: usize,
    K1: Place<Net>,
    const W1: usize,
> Arcs<Net> for (
    (K0, W<W0>),
    (K1, W<W1>),
) {
    open spec fn weights() -> Seq<nat> {
        seq![W0 as nat, W1 as nat]
    }

    fn erased() -> (arcs: Vec<(PlaceMetadata<Net>, usize)>) {
        let mut arcs = Vec::new();
        arcs.push((PlaceMetadata::new::<K0>(), W0));
        arcs.push((PlaceMetadata::new::<K1>(), W1));
        arcs
    }
}

impl<
    Net: NetId,
    K0: Place<Net>,
    const W0: usize,
    K1: Place<Net>,
    const W1: usize,
    K2: Place<Net>,
    const W2: usize,
> Arcs<Net> for (
    (K0, W<W0>),
    (K1, W<W1>),
    (K2, W<W2>),
) {
    open spec fn weights() -> Seq<nat> {
        seq![W0 as nat, W1 as nat, W2 as nat]
    }

    fn erased() -> (arcs: Vec<(PlaceMetadata<Net>, usize)>) {
        let mut arcs = Vec::new();
        arcs.push((PlaceMetadata::new::<K0>(), W0));
        arcs.push((PlaceMetadata::new::<K1>(), W1));
        arcs.push((PlaceMetadata::new::<K2>(), W2));
        arcs
    }
}

impl<
    Net: NetId,
    K0: Place<Net>,
    const W0: usize,
    K1: Place<Net>,
    const W1: usize,
    K2: Place<Net>,
    const W2: usize,
    K3: Place<Net>,
    const W3: usize,
> Arcs<Net> for (
    (K0, W<W0>),
    (K1, W<W1>),
    (K2, W<W2>),
    (K3, W<W3>),
) {
    open spec fn weights() -> Seq<nat> {
        seq![W0 as nat, W1 as nat, W2 as nat, W3 as nat]
    }

    fn erased() -> (arcs: Vec<(PlaceMetadata<Net>, usize)>) {
        let mut arcs = Vec::new();
        arcs.push((PlaceMetadata::new::<K0>(), W0));
        arcs.push((PlaceMetadata::new::<K1>(), W1));
        arcs.push((PlaceMetadata::new::<K2>(), W2));
        arcs.push((PlaceMetadata::new::<K3>(), W3));
        arcs
    }
}

impl<
    Net: NetId,
    K0: Place<Net>,
    const W0: usize,
    K1: Place<Net>,
    const W1: usize,
    K2: Place<Net>,
    const W2: usize,
    K3: Place<Net>,
    const W3: usize,
    K4: Place<Net>,
    const W4: usize,
> Arcs<Net> for (
    (K0, W<W0>),
    (K1, W<W1>),
    (K2, W<W2>),
    (K3, W<W3>),
    (K4, W<W4>),
) {
    open spec fn weights() -> Seq<nat> {
        seq![W0 as nat, W1 as nat, W2 as nat, W3 as nat, W4 as nat]
    }

    fn erased() -> (arcs: Vec<(PlaceMetadata<Net>, usize)>) {
        let mut arcs = Vec::new();
        arcs.push((PlaceMetadata::new::<K0>(), W0));
        arcs.push((PlaceMetadata::new::<K1>(), W1));
        arcs.push((PlaceMetadata::new::<K2>(), W2));
        arcs.push((PlaceMetadata::new::<K3>(), W3));
        arcs.push((PlaceMetadata::new::<K4>(), W4));
        arcs
    }
}

impl<
    Net: NetId,
    K0: Place<Net>,
    const W0: usize,
    K1: Place<Net>,
    const W1: usize,
    K2: Place<Net>,
    const W2: usize,
    K3: Place<Net>,
    const W3: usize,
    K4: Place<Net>,
    const W4: usize,
    K5: Place<Net>,
    const W5: usize,
> Arcs<Net> for (
    (K0, W<W0>),
    (K1, W<W1>),
    (K2, W<W2>),
    (K3, W<W3>),
    (K4, W<W4>),
    (K5, W<W5>),
) {
    open spec fn weights() -> Seq<nat> {
        seq![W0 as nat, W1 as nat, W2 as nat, W3 as nat, W4 as nat, W5 as nat]
    }

    fn erased() -> (arcs: Vec<(PlaceMetadata<Net>, usize)>) {
        let mut arcs = Vec::new();
        arcs.push((PlaceMetadata::new::<K0>(), W0));
        arcs.push((PlaceMetadata::new::<K1>(), W1));
        arcs.push((PlaceMetadata::new::<K2>(), W2));
        arcs.push((PlaceMetadata::new::<K3>(), W3));
        arcs.push((PlaceMetadata::new::<K4>(), W4));
        arcs.push((PlaceMetadata::new::<K5>(), W5));
        arcs
    }
}

impl<
    Net: NetId,
    K0: Place<Net>,
    const W0: usize,
    K1: Place<Net>,
    const W1: usize,
    K2: Place<Net>,
    const W2: usize,
    K3: Place<Net>,
    const W3: usize,
    K4: Place<Net>,
    const W4: usize,
    K5: Place<Net>,
    const W5: usize,
    K6: Place<Net>,
    const W6: usize,
> Arcs<Net> for (
    (K0, W<W0>),
    (K1, W<W1>),
    (K2, W<W2>),
    (K3, W<W3>),
    (K4, W<W4>),
    (K5, W<W5>),
    (K6, W<W6>),
) {
    open spec fn weights() -> Seq<nat> {
        seq![W0 as nat, W1 as nat, W2 as nat, W3 as nat, W4 as nat, W5 as nat, W6 as nat]
    }

    fn erased() -> (arcs: Vec<(PlaceMetadata<Net>, usize)>) {
        let mut arcs = Vec::new();
        arcs.push((PlaceMetadata::new::<K0>(), W0));
        arcs.push((PlaceMetadata::new::<K1>(), W1));
        arcs.push((PlaceMetadata::new::<K2>(), W2));
        arcs.push((PlaceMetadata::new::<K3>(), W3));
        arcs.push((PlaceMetadata::new::<K4>(), W4));
        arcs.push((PlaceMetadata::new::<K5>(), W5));
        arcs.push((PlaceMetadata::new::<K6>(), W6));
        arcs
    }
}

impl<
    Net: NetId,
    K0: Place<Net>,
    const W0: usize,
    K1: Place<Net>,
    const W1: usize,
    K2: Place<Net>,
    const W2: usize,
    K3: Place<Net>,
    const W3: usize,
    K4: Place<Net>,
    const W4: usize,
    K5: Place<Net>,
    const W5: usize,
    K6: Place<Net>,
    const W6: usize,
    K7: Place<Net>,
    const W7: usize,
> Arcs<Net> for (
    (K0, W<W0>),
    (K1, W<W1>),
    (K2, W<W2>),
    (K3, W<W3>),
    (K4, W<W4>),
    (K5, W<W5>),
    (K6, W<W6>),
    (K7, W<W7>),
) {
    open spec fn weights() -> Seq<nat> {
        seq![
            W0 as nat,
            W1 as nat,
            W2 as nat,
            W3 as nat,
            W4 as nat,
            W5 as nat,
            W6 as nat,
            W7 as nat,
        ]
    }

    fn erased() -> (arcs: Vec<(PlaceMetadata<Net>, usize)>) {
        let mut arcs = Vec::new();
        arcs.push((PlaceMetadata::new::<K0>(), W0));
        arcs.push((PlaceMetadata::new::<K1>(), W1));
        arcs.push((PlaceMetadata::new::<K2>(), W2));
        arcs.push((PlaceMetadata::new::<K3>(), W3));
        arcs.push((PlaceMetadata::new::<K4>(), W4));
        arcs.push((PlaceMetadata::new::<K5>(), W5));
        arcs.push((PlaceMetadata::new::<K6>(), W6));
        arcs.push((PlaceMetadata::new::<K7>(), W7));
        arcs
    }
}

impl<
    Net: NetId,
    K0: Place<Net>,
    const W0: usize,
    K1: Place<Net>,
    const W1: usize,
    K2: Place<Net>,
    const W2: usize,
    K3: Place<Net>,
    const W3: usize,
    K4: Place<Net>,
    const W4: usize,
    K5: Place<Net>,
    const W5: usize,
    K6: Place<Net>,
    const W6: usize,
    K7: Place<Net>,
    const W7: usize,
    K8: Place<Net>,
    const W8: usize,
> Arcs<Net> for (
    (K0, W<W0>),
    (K1, W<W1>),
    (K2, W<W2>),
    (K3, W<W3>),
    (K4, W<W4>),
    (K5, W<W5>),
    (K6, W<W6>),
    (K7, W<W7>),
    (K8, W<W8>),
) {
    open spec fn weights() -> Seq<nat> {
        seq![
            W0 as nat,
            W1 as nat,
            W2 as nat,
            W3 as nat,
            W4 as nat,
            W5 as nat,
            W6 as nat,
            W7 as nat,
            W8 as nat,
        ]
    }

    fn erased() -> (arcs: Vec<(PlaceMetadata<Net>, usize)>) {
        let mut arcs = Vec::new();
        arcs.push((PlaceMetadata::new::<K0>(), W0));
        arcs.push((PlaceMetadata::new::<K1>(), W1));
        arcs.push((PlaceMetadata::new::<K2>(), W2));
        arcs.push((PlaceMetadata::new::<K3>(), W3));
        arcs.push((PlaceMetadata::new::<K4>(), W4));
        arcs.push((PlaceMetadata::new::<K5>(), W5));
        arcs.push((PlaceMetadata::new::<K6>(), W6));
        arcs.push((PlaceMetadata::new::<K7>(), W7));
        arcs.push((PlaceMetadata::new::<K8>(), W8));
        arcs
    }
}

impl<
    Net: NetId,
    K0: Place<Net>,
    const W0: usize,
    K1: Place<Net>,
    const W1: usize,
    K2: Place<Net>,
    const W2: usize,
    K3: Place<Net>,
    const W3: usize,
    K4: Place<Net>,
    const W4: usize,
    K5: Place<Net>,
    const W5: usize,
    K6: Place<Net>,
    const W6: usize,
    K7: Place<Net>,
    const W7: usize,
    K8: Place<Net>,
    const W8: usize,
    K9: Place<Net>,
    const W9: usize,
> Arcs<Net> for (
    (K0, W<W0>),
    (K1, W<W1>),
    (K2, W<W2>),
    (K3, W<W3>),
    (K4, W<W4>),
    (K5, W<W5>),
    (K6, W<W6>),
    (K7, W<W7>),
    (K8, W<W8>),
    (K9, W<W9>),
) {
    open spec fn weights() -> Seq<nat> {
        seq![
            W0 as nat,
            W1 as nat,
            W2 as nat,
            W3 as nat,
            W4 as nat,
            W5 as nat,
            W6 as nat,
            W7 as nat,
            W8 as nat,
            W9 as nat,
        ]
    }

    fn erased() -> (arcs: Vec<(PlaceMetadata<Net>, usize)>) {
        let mut arcs = Vec::new();
        arcs.push((PlaceMetadata::new::<K0>(), W0));
        arcs.push((PlaceMetadata::new::<K1>(), W1));
        arcs.push((PlaceMetadata::new::<K2>(), W2));
        arcs.push((PlaceMetadata::new::<K3>(), W3));
        arcs.push((PlaceMetadata::new::<K4>(), W4));
        arcs.push((PlaceMetadata::new::<K5>(), W5));
        arcs.push((PlaceMetadata::new::<K6>(), W6));
        arcs.push((PlaceMetadata::new::<K7>(), W7));
        arcs.push((PlaceMetadata::new::<K8>(), W8));
        arcs.push((PlaceMetadata::new::<K9>(), W9));
        arcs
    }
}

impl<
    Net: NetId,
    K0: Place<Net>,
    const W0: usize,
    K1: Place<Net>,
    const W1: usize,
    K2: Place<Net>,
    const W2: usize,
    K3: Place<Net>,
    const W3: usize,
    K4: Place<Net>,
    const W4: usize,
    K5: Place<Net>,
    const W5: usize,
    K6: Place<Net>,
    const W6: usize,
    K7: Place<Net>,
    const W7: usize,
    K8: Place<Net>,
    const W8: usize,
    K9: Place<Net>,
    const W9: usize,
    K10: Place<Net>,
    const W10: usize,
> Arcs<Net> for (
    (K0, W<W0>),
    (K1, W<W1>),
    (K2, W<W2>),
    (K3, W<W3>),
    (K4, W<W4>),
    (K5, W<W5>),
    (K6, W<W6>),
    (K7, W<W7>),
    (K8, W<W8>),
    (K9, W<W9>),
    (K10, W<W10>),
) {
    open spec fn weights() -> Seq<nat> {
        seq![
            W0 as nat,
            W1 as nat,
            W2 as nat,
            W3 as nat,
            W4 as nat,
            W5 as nat,
            W6 as nat,
            W7 as nat,
            W8 as nat,
            W9 as nat,
            W10 as nat,
        ]
    }

    fn erased() -> (arcs: Vec<(PlaceMetadata<Net>, usize)>) {
        let mut arcs = Vec::new();
        arcs.push((PlaceMetadata::new::<K0>(), W0));
        arcs.push((PlaceMetadata::new::<K1>(), W1));
        arcs.push((PlaceMetadata::new::<K2>(), W2));
        arcs.push((PlaceMetadata::new::<K3>(), W3));
        arcs.push((PlaceMetadata::new::<K4>(), W4));
        arcs.push((PlaceMetadata::new::<K5>(), W5));
        arcs.push((PlaceMetadata::new::<K6>(), W6));
        arcs.push((PlaceMetadata::new::<K7>(), W7));
        arcs.push((PlaceMetadata::new::<K8>(), W8));
        arcs.push((PlaceMetadata::new::<K9>(), W9));
        arcs.push((PlaceMetadata::new::<K10>(), W10));
        arcs
    }
}

impl<
    Net: NetId,
    K0: Place<Net>,
    const W0: usize,
    K1: Place<Net>,
    const W1: usize,
    K2: Place<Net>,
    const W2: usize,
    K3: Place<Net>,
    const W3: usize,
    K4: Place<Net>,
    const W4: usize,
    K5: Place<Net>,
    const W5: usize,
    K6: Place<Net>,
    const W6: usize,
    K7: Place<Net>,
    const W7: usize,
    K8: Place<Net>,
    const W8: usize,
    K9: Place<Net>,
    const W9: usize,
    K10: Place<Net>,
    const W10: usize,
    K11: Place<Net>,
    const W11: usize,
> Arcs<Net> for (
    (K0, W<W0>),
    (K1, W<W1>),
    (K2, W<W2>),
    (K3, W<W3>),
    (K4, W<W4>),
    (K5, W<W5>),
    (K6, W<W6>),
    (K7, W<W7>),
    (K8, W<W8>),
    (K9, W<W9>),
    (K10, W<W10>),
    (K11, W<W11>),
) {
    open spec fn weights() -> Seq<nat> {
        seq![
            W0 as nat,
            W1 as nat,
            W2 as nat,
            W3 as nat,
            W4 as nat,
            W5 as nat,
            W6 as nat,
            W7 as nat,
            W8 as nat,
            W9 as nat,
            W10 as nat,
            W11 as nat,
        ]
    }

    fn erased() -> (arcs: Vec<(PlaceMetadata<Net>, usize)>) {
        let mut arcs = Vec::new();
        arcs.push((PlaceMetadata::new::<K0>(), W0));
        arcs.push((PlaceMetadata::new::<K1>(), W1));
        arcs.push((PlaceMetadata::new::<K2>(), W2));
        arcs.push((PlaceMetadata::new::<K3>(), W3));
        arcs.push((PlaceMetadata::new::<K4>(), W4));
        arcs.push((PlaceMetadata::new::<K5>(), W5));
        arcs.push((PlaceMetadata::new::<K6>(), W6));
        arcs.push((PlaceMetadata::new::<K7>(), W7));
        arcs.push((PlaceMetadata::new::<K8>(), W8));
        arcs.push((PlaceMetadata::new::<K9>(), W9));
        arcs.push((PlaceMetadata::new::<K10>(), W10));
        arcs.push((PlaceMetadata::new::<K11>(), W11));
        arcs
    }
}

impl<
    Net: NetId,
    K0: Place<Net>,
    const W0: usize,
    K1: Place<Net>,
    const W1: usize,
    K2: Place<Net>,
    const W2: usize,
    K3: Place<Net>,
    const W3: usize,
    K4: Place<Net>,
    const W4: usize,
    K5: Place<Net>,
    const W5: usize,
    K6: Place<Net>,
    const W6: usize,
    K7: Place<Net>,
    const W7: usize,
    K8: Place<Net>,
    const W8: usize,
    K9: Place<Net>,
    const W9: usize,
    K10: Place<Net>,
    const W10: usize,
    K11: Place<Net>,
    const W11: usize,
    K12: Place<Net>,
    const W12: usize,
> Arcs<Net> for (
    (K0, W<W0>),
    (K1, W<W1>),
    (K2, W<W2>),
    (K3, W<W3>),
    (K4, W<W4>),
    (K5, W<W5>),
    (K6, W<W6>),
    (K7, W<W7>),
    (K8, W<W8>),
    (K9, W<W9>),
    (K10, W<W10>),
    (K11, W<W11>),
    (K12, W<W12>),
) {
    open spec fn weights() -> Seq<nat> {
        seq![
            W0 as nat,
            W1 as nat,
            W2 as nat,
            W3 as nat,
            W4 as nat,
            W5 as nat,
            W6 as nat,
            W7 as nat,
            W8 as nat,
            W9 as nat,
            W10 as nat,
            W11 as nat,
            W12 as nat,
        ]
    }

    fn erased() -> (arcs: Vec<(PlaceMetadata<Net>, usize)>) {
        let mut arcs = Vec::new();
        arcs.push((PlaceMetadata::new::<K0>(), W0));
        arcs.push((PlaceMetadata::new::<K1>(), W1));
        arcs.push((PlaceMetadata::new::<K2>(), W2));
        arcs.push((PlaceMetadata::new::<K3>(), W3));
        arcs.push((PlaceMetadata::new::<K4>(), W4));
        arcs.push((PlaceMetadata::new::<K5>(), W5));
        arcs.push((PlaceMetadata::new::<K6>(), W6));
        arcs.push((PlaceMetadata::new::<K7>(), W7));
        arcs.push((PlaceMetadata::new::<K8>(), W8));
        arcs.push((PlaceMetadata::new::<K9>(), W9));
        arcs.push((PlaceMetadata::new::<K10>(), W10));
        arcs.push((PlaceMetadata::new::<K11>(), W11));
        arcs.push((PlaceMetadata::new::<K12>(), W12));
        arcs
    }
}

impl<
    Net: NetId,
    K0: Place<Net>,
    const W0: usize,
    K1: Place<Net>,
    const W1: usize,
    K2: Place<Net>,
    const W2: usize,
    K3: Place<Net>,
    const W3: usize,
    K4: Place<Net>,
    const W4: usize,
    K5: Place<Net>,
    const W5: usize,
    K6: Place<Net>,
    const W6: usize,
    K7: Place<Net>,
    const W7: usize,
    K8: Place<Net>,
    const W8: usize,
    K9: Place<Net>,
    const W9: usize,
    K10: Place<Net>,
    const W10: usize,
    K11: Place<Net>,
    const W11: usize,
    K12: Place<Net>,
    const W12: usize,
    K13: Place<Net>,
    const W13: usize,
> Arcs<Net> for (
    (K0, W<W0>),
    (K1, W<W1>),
    (K2, W<W2>),
    (K3, W<W3>),
    (K4, W<W4>),
    (K5, W<W5>),
    (K6, W<W6>),
    (K7, W<W7>),
    (K8, W<W8>),
    (K9, W<W9>),
    (K10, W<W10>),
    (K11, W<W11>),
    (K12, W<W12>),
    (K13, W<W13>),
) {
    open spec fn weights() -> Seq<nat> {
        seq![
            W0 as nat,
            W1 as nat,
            W2 as nat,
            W3 as nat,
            W4 as nat,
            W5 as nat,
            W6 as nat,
            W7 as nat,
            W8 as nat,
            W9 as nat,
            W10 as nat,
            W11 as nat,
            W12 as nat,
            W13 as nat,
        ]
    }

    fn erased() -> (arcs: Vec<(PlaceMetadata<Net>, usize)>) {
        let mut arcs = Vec::new();
        arcs.push((PlaceMetadata::new::<K0>(), W0));
        arcs.push((PlaceMetadata::new::<K1>(), W1));
        arcs.push((PlaceMetadata::new::<K2>(), W2));
        arcs.push((PlaceMetadata::new::<K3>(), W3));
        arcs.push((PlaceMetadata::new::<K4>(), W4));
        arcs.push((PlaceMetadata::new::<K5>(), W5));
        arcs.push((PlaceMetadata::new::<K6>(), W6));
        arcs.push((PlaceMetadata::new::<K7>(), W7));
        arcs.push((PlaceMetadata::new::<K8>(), W8));
        arcs.push((PlaceMetadata::new::<K9>(), W9));
        arcs.push((PlaceMetadata::new::<K10>(), W10));
        arcs.push((PlaceMetadata::new::<K11>(), W11));
        arcs.push((PlaceMetadata::new::<K12>(), W12));
        arcs.push((PlaceMetadata::new::<K13>(), W13));
        arcs
    }
}

impl<
    Net: NetId,
    K0: Place<Net>,
    const W0: usize,
    K1: Place<Net>,
    const W1: usize,
    K2: Place<Net>,
    const W2: usize,
    K3: Place<Net>,
    const W3: usize,
    K4: Place<Net>,
    const W4: usize,
    K5: Place<Net>,
    const W5: usize,
    K6: Place<Net>,
    const W6: usize,
    K7: Place<Net>,
    const W7: usize,
    K8: Place<Net>,
    const W8: usize,
    K9: Place<Net>,
    const W9: usize,
    K10: Place<Net>,
    const W10: usize,
    K11: Place<Net>,
    const W11: usize,
    K12: Place<Net>,
    const W12: usize,
    K13: Place<Net>,
    const W13: usize,
    K14: Place<Net>,
    const W14: usize,
> Arcs<Net> for (
    (K0, W<W0>),
    (K1, W<W1>),
    (K2, W<W2>),
    (K3, W<W3>),
    (K4, W<W4>),
    (K5, W<W5>),
    (K6, W<W6>),
    (K7, W<W7>),
    (K8, W<W8>),
    (K9, W<W9>),
    (K10, W<W10>),
    (K11, W<W11>),
    (K12, W<W12>),
    (K13, W<W13>),
    (K14, W<W14>),
) {
    open spec fn weights() -> Seq<nat> {
        seq![
            W0 as nat,
            W1 as nat,
            W2 as nat,
            W3 as nat,
            W4 as nat,
            W5 as nat,
            W6 as nat,
            W7 as nat,
            W8 as nat,
            W9 as nat,
            W10 as nat,
            W11 as nat,
            W12 as nat,
            W13 as nat,
            W14 as nat,
        ]
    }

    fn erased() -> (arcs: Vec<(PlaceMetadata<Net>, usize)>) {
        let mut arcs = Vec::new();
        arcs.push((PlaceMetadata::new::<K0>(), W0));
        arcs.push((PlaceMetadata::new::<K1>(), W1));
        arcs.push((PlaceMetadata::new::<K2>(), W2));
        arcs.push((PlaceMetadata::new::<K3>(), W3));
        arcs.push((PlaceMetadata::new::<K4>(), W4));
        arcs.push((PlaceMetadata::new::<K5>(), W5));
        arcs.push((PlaceMetadata::new::<K6>(), W6));
        arcs.push((PlaceMetadata::new::<K7>(), W7));
        arcs.push((PlaceMetadata::new::<K8>(), W8));
        arcs.push((PlaceMetadata::new::<K9>(), W9));
        arcs.push((PlaceMetadata::new::<K10>(), W10));
        arcs.push((PlaceMetadata::new::<K11>(), W11));
        arcs.push((PlaceMetadata::new::<K12>(), W12));
        arcs.push((PlaceMetadata::new::<K13>(), W13));
        arcs.push((PlaceMetadata::new::<K14>(), W14));
        arcs
    }
}

} // verus!
