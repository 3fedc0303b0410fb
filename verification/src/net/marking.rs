//! Markings and arcs as mathematics: what it means for a transition to be
//! enabled, and what firing it does to a marking.
//!
//! A marking is a sequence of counts, one for each place of a net, in the
//! order of the places' identifiers. An arc joins a place to a transition
//! with a weight.

use vstd::prelude::*;

verus! {

/// Weighted arc between a place and a transition.
pub struct ArcView {
    /// The index of the place.
    pub place: nat,
    /// How many marks the arc takes from the place, or gives to it.
    pub weight: nat,
}

/// The arcs of one transition: its preset and its postset, in the order in
/// which they were given.
pub struct TransView {
    pub inflows: Seq<ArcView>,
    pub outflows: Seq<ArcView>,
}

/// The weights of the arcs that join `place`, added up.
pub open spec fn weight_at(arcs: Seq<ArcView>, place: nat) -> nat
    decreases arcs.len(),
{
    if arcs.len() == 0 {
        0
    } else {
        weight_at(arcs.drop_last(), place) + if arcs.last().place == place {
            arcs.last().weight
        } else {
            0
        }
    }
}

/// The weights of all the arcs, added up.
pub open spec fn total_weight(arcs: Seq<ArcView>) -> nat
    decreases arcs.len(),
{
    if arcs.len() == 0 {
        0
    } else {
        total_weight(arcs.drop_last()) + arcs.last().weight
    }
}

/// The counts of all the places, added up.
pub open spec fn total(marking: Seq<nat>) -> nat
    decreases marking.len(),
{
    if marking.len() == 0 {
        0
    } else {
        total(marking.drop_last()) + marking.last()
    }
}

/// Every arc joins one of the first `places` places.
pub open spec fn in_range(arcs: Seq<ArcView>, places: nat) -> bool {
    forall|i: int| 0 <= i < arcs.len() ==> (#[trigger] arcs[i]).place < places
}

/// No arc joins `place`.
pub open spec fn untouched(arcs: Seq<ArcView>, place: nat) -> bool {
    forall|i: int| 0 <= i < arcs.len() ==> (#[trigger] arcs[i]).place != place
}

/// No two arcs join the same place.
pub open spec fn distinct_places(arcs: Seq<ArcView>) -> bool {
    forall|i: int, j: int|
        0 <= i < j < arcs.len() ==> (#[trigger] arcs[i]).place != (#[trigger] arcs[j]).place
}

/// The count of `place`: zero for a place that the marking does not reach.
pub open spec fn marks_at(marking: Seq<nat>, place: nat) -> nat {
    if place < marking.len() {
        marking[place as int]
    } else {
        0
    }
}

/// Every count fits in a `usize`.
pub open spec fn fits(marking: Seq<nat>) -> bool {
    forall|place: int| 0 <= place < marking.len() ==> #[trigger] marking[place] <= usize::MAX
}

/// The marking with `n` more marks on `place`.
pub open spec fn marked(marking: Seq<nat>, place: nat, n: nat) -> Seq<nat> {
    if place < marking.len() {
        marking.update(place as int, marking[place as int] + n)
    } else {
        marking
    }
}

/// The marking with `n` marks less on `place`, where it holds as many.
pub open spec fn unmarked(marking: Seq<nat>, place: nat, n: nat) -> Seq<nat> {
    if place < marking.len() && n <= marking[place as int] {
        marking.update(place as int, (marking[place as int] - n) as nat)
    } else {
        marking
    }
}

/// A transition with the preset `inflows` is enabled: every arc finds its
/// weight on its place.
pub open spec fn enabled(inflows: Seq<ArcView>, marking: Seq<nat>) -> bool {
    forall|i: int|
        0 <= i < inflows.len() ==> marks_at(marking, (#[trigger] inflows[i]).place)
            >= inflows[i].weight
}

/// Every place holds what the arcs on it take together. For a preset that
/// names no place twice this is [`enabled`].
pub open spec fn covered(inflows: Seq<ArcView>, marking: Seq<nat>) -> bool {
    forall|place: nat| #[trigger] weight_at(inflows, place) <= marks_at(marking, place)
}

/// The marking after each arc took its weight from its place.
pub open spec fn consumed(marking: Seq<nat>, arcs: Seq<ArcView>) -> Seq<nat> {
    Seq::new(
        marking.len(),
        |place: int|
            if weight_at(arcs, place as nat) <= marking[place] {
                (marking[place] - weight_at(arcs, place as nat)) as nat
            } else {
                0
            },
    )
}

/// The marking after each arc gave its weight to its place.
pub open spec fn produced(marking: Seq<nat>, arcs: Seq<ArcView>) -> Seq<nat> {
    Seq::new(marking.len(), |place: int| marking[place] + weight_at(arcs, place as nat))
}

/// The marking after a transition fired: its preset consumed, then its
/// postset produced.
pub open spec fn fired(marking: Seq<nat>, trans: TransView) -> Seq<nat> {
    produced(consumed(marking, trans.inflows), trans.outflows)
}

/// One more arc adds its weight at its place and nothing elsewhere.
pub proof fn lemma_weight_at_step(arcs: Seq<ArcView>, k: int, place: nat)
    requires
        0 <= k < arcs.len(),
    ensures
        weight_at(arcs.take(k + 1), place) == weight_at(arcs.take(k), place) + if arcs[k].place
            == place {
            arcs[k].weight
        } else {
            0
        },
{
    assert(arcs.take(k + 1).drop_last() =~= arcs.take(k));
}

/// What the first `k` arcs weigh on a place is no more than what all weigh.
pub proof fn lemma_weight_at_prefix(arcs: Seq<ArcView>, k: int, place: nat)
    requires
        0 <= k <= arcs.len(),
    ensures
        weight_at(arcs.take(k), place) <= weight_at(arcs, place),
    decreases arcs.len() - k,
{
    if k == arcs.len() {
        assert(arcs.take(k) =~= arcs);
    } else {
        lemma_weight_at_step(arcs, k, place);
        lemma_weight_at_prefix(arcs, k + 1, place);
    }
}

/// An arc weighs no more than all the arcs on its place together.
pub proof fn lemma_weight_at_arc(arcs: Seq<ArcView>, i: int)
    requires
        0 <= i < arcs.len(),
    ensures
        arcs[i].weight <= weight_at(arcs, arcs[i].place),
{
    lemma_weight_at_step(arcs, i, arcs[i].place);
    lemma_weight_at_prefix(arcs, i + 1, arcs[i].place);
}

/// Arcs that do not join a place weigh nothing on it.
pub proof fn lemma_weight_at_untouched(arcs: Seq<ArcView>, place: nat)
    requires
        untouched(arcs, place),
    ensures
        weight_at(arcs, place) == 0,
    decreases arcs.len(),
{
    if arcs.len() > 0 {
        assert(arcs.last() == arcs[arcs.len() - 1]);
        let rest = arcs.drop_last();
        assert forall|i: int| 0 <= i < rest.len() implies (#[trigger] rest[i]).place != place by {
            assert(rest[i] == arcs[i]);
        }
        lemma_weight_at_untouched(rest, place);
    }
}

/// Where no two arcs join the same place, an arc weighs on its place what
/// all the arcs on it do.
pub proof fn lemma_weight_at_distinct(arcs: Seq<ArcView>, i: int)
    requires
        0 <= i < arcs.len(),
        distinct_places(arcs),
    ensures
        weight_at(arcs, arcs[i].place) == arcs[i].weight,
    decreases arcs.len(),
{
    let rest = arcs.drop_last();
    let place = arcs[i].place;
    assert(arcs.last() == arcs[arcs.len() - 1]);
    assert forall|a: int, b: int| 0 <= a < b < rest.len() implies (#[trigger] rest[a]).place != (
    #[trigger] rest[b]).place by {
        assert(rest[a] == arcs[a] && rest[b] == arcs[b]);
    }
    if i == arcs.len() - 1 {
        assert forall|a: int| 0 <= a < rest.len() implies (#[trigger] rest[a]).place != place by {
            assert(rest[a] == arcs[a]);
        }
        lemma_weight_at_untouched(rest, place);
    } else {
        assert(rest[i] == arcs[i]);
        lemma_weight_at_distinct(rest, i);
    }
}

/// A preset that is covered is enabled.
pub proof fn lemma_covered_is_enabled(inflows: Seq<ArcView>, marking: Seq<nat>)
    requires
        covered(inflows, marking),
    ensures
        enabled(inflows, marking),
{
    assert forall|i: int| 0 <= i < inflows.len() implies marks_at(
        marking,
        (#[trigger] inflows[i]).place,
    ) >= inflows[i].weight by {
        lemma_weight_at_arc(inflows, i);
        assert(weight_at(inflows, inflows[i].place) <= marks_at(marking, inflows[i].place));
    }
}

/// A preset that names no place twice is covered as soon as it is enabled.
pub proof fn lemma_distinct_enabled_is_covered(inflows: Seq<ArcView>, marking: Seq<nat>)
    requires
        distinct_places(inflows),
        enabled(inflows, marking),
    ensures
        covered(inflows, marking),
{
    assert forall|place: nat| #[trigger] weight_at(inflows, place) <= marks_at(marking, place) by {
        if untouched(inflows, place) {
            lemma_weight_at_untouched(inflows, place);
        } else {
            let i = choose|i: int| 0 <= i < inflows.len() && (#[trigger] inflows[i]).place == place;
            lemma_weight_at_distinct(inflows, i);
        }
    }
}

/// Changing one count changes the total by as much.
pub proof fn lemma_total_update(marking: Seq<nat>, place: int, count: nat)
    requires
        0 <= place < marking.len(),
    ensures
        total(marking.update(place, count)) == total(marking) - marking[place] + count,
    decreases marking.len(),
{
    let updated = marking.update(place, count);
    if place == marking.len() - 1 {
        assert(updated.drop_last() =~= marking.drop_last());
    } else {
        assert(updated.drop_last() =~= marking.drop_last().update(place, count));
        lemma_total_update(marking.drop_last(), place, count);
    }
}

/// The total of the first `k` counts is no more than the total of all.
pub proof fn lemma_total_prefix(marking: Seq<nat>, k: int)
    requires
        0 <= k <= marking.len(),
    ensures
        total(marking.take(k)) <= total(marking),
    decreases marking.len() - k,
{
    if k == marking.len() {
        assert(marking.take(k) =~= marking);
    } else {
        assert(marking.take(k + 1).drop_last() =~= marking.take(k));
        lemma_total_prefix(marking, k + 1);
    }
}

/// Consuming one more arc takes its weight from its place.
pub proof fn lemma_consumed_step(marking: Seq<nat>, arcs: Seq<ArcView>, k: int)
    requires
        0 <= k < arcs.len(),
        covered(arcs.take(k + 1), marking),
    ensures
        consumed(marking, arcs.take(k + 1)) == unmarked(
            consumed(marking, arcs.take(k)),
            arcs[k].place,
            arcs[k].weight,
        ),
        arcs[k].weight <= marks_at(consumed(marking, arcs.take(k)), arcs[k].place),
{
    let before = consumed(marking, arcs.take(k));
    let after = consumed(marking, arcs.take(k + 1));
    let arc = arcs[k];
    assert(weight_at(arcs.take(k + 1), arc.place) <= marks_at(marking, arc.place));
    lemma_weight_at_step(arcs, k, arc.place);
    assert forall|place: int| 0 <= place < marking.len() implies after[place] == unmarked(
        before,
        arc.place,
        arc.weight,
    )[place] by {
        lemma_weight_at_step(arcs, k, place as nat);
        assert(weight_at(arcs.take(k + 1), place as nat) <= marks_at(marking, place as nat));
    }
    assert(after =~= unmarked(before, arc.place, arc.weight));
}

/// Producing one more arc gives its weight to its place.
pub proof fn lemma_produced_step(marking: Seq<nat>, arcs: Seq<ArcView>, k: int)
    requires
        0 <= k < arcs.len(),
        arcs[k].place < marking.len(),
    ensures
        produced(marking, arcs.take(k + 1)) == marked(
            produced(marking, arcs.take(k)),
            arcs[k].place,
            arcs[k].weight,
        ),
{
    let before = produced(marking, arcs.take(k));
    let after = produced(marking, arcs.take(k + 1));
    let arc = arcs[k];
    assert forall|place: int| 0 <= place < marking.len() implies after[place] == marked(
        before,
        arc.place,
        arc.weight,
    )[place] by {
        lemma_weight_at_step(arcs, k, place as nat);
    }
    assert(after =~= marked(before, arc.place, arc.weight));
}

/// A covered prefix: what covers all the arcs covers the first `k`.
pub proof fn lemma_covered_prefix(arcs: Seq<ArcView>, marking: Seq<nat>, k: int)
    requires
        0 <= k <= arcs.len(),
        covered(arcs, marking),
    ensures
        covered(arcs.take(k), marking),
{
    assert forall|place: nat| #[trigger] weight_at(arcs.take(k), place) <= marks_at(
        marking,
        place,
    ) by {
        lemma_weight_at_prefix(arcs, k, place);
        assert(weight_at(arcs, place) <= marks_at(marking, place));
    }
}

/// Consuming takes from the total what the arcs weigh together.
pub proof fn lemma_total_consumed(marking: Seq<nat>, arcs: Seq<ArcView>)
    requires
        in_range(arcs, marking.len()),
        covered(arcs, marking),
    ensures
        total(consumed(marking, arcs)) + total_weight(arcs) == total(marking),
    decreases arcs.len(),
{
    if arcs.len() == 0 {
        assert(consumed(marking, arcs) =~= marking);
    } else {
        let k = arcs.len() - 1;
        let rest = arcs.drop_last();
        assert(arcs.take(k) =~= rest);
        assert(arcs.take(k + 1) =~= arcs);
        lemma_covered_prefix(arcs, marking, k);
        assert forall|i: int| 0 <= i < rest.len() implies (#[trigger] rest[i]).place
            < marking.len() by {
            assert(rest[i] == arcs[i]);
        }
        lemma_total_consumed(marking, rest);
        lemma_consumed_step(marking, arcs, k);
        lemma_total_update(
            consumed(marking, rest),
            arcs[k].place as int,
            (consumed(marking, rest)[arcs[k].place as int] - arcs[k].weight) as nat,
        );
    }
}

/// Producing adds to the total what the arcs weigh together.
pub proof fn lemma_total_produced(marking: Seq<nat>, arcs: Seq<ArcView>)
    requires
        in_range(arcs, marking.len()),
    ensures
        total(produced(marking, arcs)) == total(marking) + total_weight(arcs),
    decreases arcs.len(),
{
    if arcs.len() == 0 {
        assert(produced(marking, arcs) =~= marking);
    } else {
        let k = arcs.len() - 1;
        let rest = arcs.drop_last();
        assert(arcs.take(k) =~= rest);
        assert(arcs.take(k + 1) =~= arcs);
        assert forall|i: int| 0 <= i < rest.len() implies (#[trigger] rest[i]).place
            < marking.len() by {
            assert(rest[i] == arcs[i]);
        }
        lemma_total_produced(marking, rest);
        lemma_produced_step(marking, arcs, k);
        lemma_total_update(
            produced(marking, rest),
            arcs[k].place as int,
            produced(marking, rest)[arcs[k].place as int] + arcs[k].weight,
        );
    }
}

/// Conservation: firing a transition whose preset is covered changes the
/// total by what its postset weighs less what its preset weighs, and leaves
/// every place alone that none of its arcs joins.
pub proof fn lemma_fire_conserves(marking: Seq<nat>, trans: TransView)
    requires
        in_range(trans.inflows, marking.len()),
        in_range(trans.outflows, marking.len()),
        covered(trans.inflows, marking),
    ensures
        total(fired(marking, trans)) == total(marking) - total_weight(trans.inflows)
            + total_weight(trans.outflows),
        fired(marking, trans).len() == marking.len(),
        forall|place: int|
            0 <= place < marking.len() && untouched(trans.inflows, place as nat) && untouched(
                trans.outflows,
                place as nat,
            ) ==> #[trigger] fired(marking, trans)[place] == marking[place],
{
    lemma_total_consumed(marking, trans.inflows);
    lemma_total_produced(consumed(marking, trans.inflows), trans.outflows);
    assert forall|place: int|
        0 <= place < marking.len() && untouched(trans.inflows, place as nat) && untouched(
            trans.outflows,
            place as nat,
        ) implies #[trigger] fired(marking, trans)[place] == marking[place] by {
        lemma_weight_at_untouched(trans.inflows, place as nat);
        lemma_weight_at_untouched(trans.outflows, place as nat);
    }
}

/// Round trip: `n` marks put on a place can be taken from it again, and the
/// marking is then what it was.
pub proof fn lemma_mark_unmark_round_trip(marking: Seq<nat>, place: nat, n: nat)
    requires
        place < marking.len(),
    ensures
        n <= marks_at(marked(marking, place, n), place),
        unmarked(marked(marking, place, n), place, n) == marking,
{
    assert(unmarked(marked(marking, place, n), place, n) =~= marking);
}

} // verus!
