//! The slot table: which capture group of the combined pattern belongs to
//! which route.
//!
//! Slot `k` stands for capture group `k + 1`. Each route takes one anchor
//! slot, which holds the route, and then one empty slot per parameter.

use vstd::prelude::*;
use crate::route::{route_views, Route, RouteView};

verus! {

/// `n` empty slots.
pub open spec fn placeholders<V>(n: nat) -> Seq<Option<RouteView<V>>> {
    Seq::new(n, |i: int| None)
}

/// The slots of one route: its anchor, then a placeholder per parameter.
pub open spec fn span<V>(route: RouteView<V>) -> Seq<Option<RouteView<V>>> {
    seq![Some(route)] + placeholders(route.params.len())
}

/// The slot table of `routes`: their spans, first route first.
pub open spec fn slot_table<V>(routes: Seq<RouteView<V>>) -> Seq<Option<RouteView<V>>>
    decreases routes.len(),
{
    if routes.len() == 0 {
        Seq::empty()
    } else {
        span(routes[0]) + slot_table(routes.drop_first())
    }
}

/// The number of slots that `routes` take: one per route and one per
/// parameter.
pub open spec fn slot_count<V>(routes: Seq<RouteView<V>>) -> nat
    decreases routes.len(),
{
    if routes.len() == 0 {
        0
    } else {
        1 + routes[0].params.len() + slot_count(routes.drop_first())
    }
}

/// The slot at which the span of route `i` begins.
pub open spec fn anchor_of<V>(routes: Seq<RouteView<V>>, i: int) -> nat {
    slot_count(routes.take(i))
}

/// The routes that a sequence of slots holds, in order.
pub open spec fn anchors<V>(slots: Seq<Option<RouteView<V>>>) -> Seq<RouteView<V>>
    decreases slots.len(),
{
    if slots.len() == 0 {
        Seq::empty()
    } else {
        match slots.last() {
            Some(route) => anchors(slots.drop_last()).push(route),
            None => anchors(slots.drop_last()),
        }
    }
}

/// The views of a sequence of slots.
pub open spec fn slot_views<V>(slots: Seq<Option<Route<V>>>) -> Seq<Option<RouteView<V>>> {
    slots.map_values(
        |s: Option<Route<V>>|
            match s {
                Some(route) => Some(route@),
                None => None,
            },
    )
}

/// The slot table has one slot per route and one per parameter.
pub proof fn lemma_slot_table_len<V>(routes: Seq<RouteView<V>>)
    ensures
        slot_table(routes).len() == slot_count(routes),
    decreases routes.len(),
{
    if routes.len() > 0 {
        lemma_slot_table_len(routes.drop_first());
    }
}

/// The routes held by two runs of slots, one after the other, are those of
/// the first followed by those of the second.
pub proof fn lemma_anchors_concat<V>(
    front: Seq<Option<RouteView<V>>>,
    back: Seq<Option<RouteView<V>>>,
)
    ensures
        anchors(front + back) == anchors(front) + anchors(back),
    decreases back.len(),
{
    if back.len() == 0 {
        assert(front + back =~= front);
        assert(anchors(front) + anchors(back) =~= anchors(front));
    } else {
        lemma_anchors_concat(front, back.drop_last());
        assert((front + back).drop_last() =~= front + back.drop_last());
        assert((front + back).last() == back.last());
        match back.last() {
            Some(route) => {
                assert(anchors(front) + anchors(back.drop_last()).push(route) =~= (anchors(front)
                    + anchors(back.drop_last())).push(route));
            },
            None => {},
        }
    }
}

/// Placeholders hold no route.
pub proof fn lemma_anchors_placeholders<V>(n: nat)
    ensures
        anchors(placeholders::<V>(n)) == Seq::<RouteView<V>>::empty(),
    decreases n,
{
    if n > 0 {
        lemma_anchors_placeholders::<V>((n - 1) as nat);
        assert(placeholders::<V>(n).drop_last() =~= placeholders::<V>((n - 1) as nat));
    }
}

/// The routes that a slot table holds are the routes it was made from, in
/// their order.
pub proof fn lemma_anchors_of_slot_table<V>(routes: Seq<RouteView<V>>)
    ensures
        anchors(slot_table(routes)) == routes,
    decreases routes.len(),
{
    if routes.len() > 0 {
        let first = routes[0];
        let rest = routes.drop_first();
        lemma_anchors_of_slot_table(rest);
        lemma_anchors_concat(span(first), slot_table(rest));
        lemma_anchors_concat(seq![Some(first)], placeholders(first.params.len()));
        lemma_anchors_placeholders::<V>(first.params.len());
        assert(seq![Some(first)].drop_last() =~= Seq::<Option<RouteView<V>>>::empty());
        assert(anchors(Seq::<Option<RouteView<V>>>::empty()) =~= Seq::empty());
        assert(anchors(seq![Some(first)]) =~= seq![first]);
        assert(anchors(slot_table(routes)) =~= routes);
    } else {
        assert(anchors(slot_table(routes)) =~= routes);
    }
}

/// Where a route's span lies: the slot at `anchor_of(routes, i)` holds
/// route `i`, and the slots after it, one per parameter of the route, are
/// empty.
pub proof fn lemma_anchor_slot<V>(routes: Seq<RouteView<V>>, i: int)
    requires
        0 <= i < routes.len(),
    ensures
        anchor_of(routes, i) + routes[i].params.len() < slot_table(routes).len(),
        slot_table(routes)[anchor_of(routes, i) as int] == Some(routes[i]),
        forall|j: int|
            1 <= j <= routes[i].params.len() ==> (#[trigger] slot_table(routes)[anchor_of(routes, i)
                + j]).is_none(),
    decreases i,
{
    let first = routes[0];
    let rest = routes.drop_first();
    if i == 0 {
        assert(slot_count(routes.take(0)) == 0);
    } else {
        lemma_anchor_slot(rest, i - 1);
        assert(routes.take(i).drop_first() =~= rest.take(i - 1));
        assert(routes.take(i)[0] == first);
        assert(anchor_of(routes, i) == span(first).len() + anchor_of(rest, i - 1));
        assert forall|j: int| 1 <= j <= routes[i].params.len() implies (#[trigger] slot_table(
            routes,
        )[anchor_of(routes, i) + j]).is_none() by {
            assert(slot_table(routes)[anchor_of(routes, i) + j] == slot_table(rest)[anchor_of(
                rest,
                i - 1,
            ) + j]);
        }
    }
}

/// Build the slot table of `routes`, first route first.
pub fn lay_out<'a, V>(routes: Vec<Route<'a, V>>) -> (slots: Vec<Option<Route<'a, V>>>)
    ensures
        slot_views(slots@) == slot_table(route_views(routes@)),
{
    let ghost all = route_views(routes@);
    let mut routes = routes;
    let mut slots: Vec<Option<Route<'a, V>>> = Vec::new();
    proof {
        assert(slot_views(slots@) =~= Seq::empty());
    }
    while routes.len() > 0
        invariant
            slot_views(slots@) + slot_table(route_views(routes@)) == slot_table(all),
        decreases routes.len(),
    {
        let ghost before = slot_views(slots@);
        let ghost pending = route_views(routes@);
        let ghost head = pending[0];
        let route = routes.remove(0);
        let count = route.params().len();
        proof {
            assert(route_views(routes@) =~= pending.drop_first());
            assert(route@ == head);
            assert(count == route@.params.len());
        }
        slots.push(Some(route));
        proof {
            assert(slot_views(slots@) =~= before + seq![Some(head)] + placeholders::<V>(0));
        }
        let mut k: usize = 0;
        while k < count
            invariant
                k <= count,
                slot_views(slots@) == before + seq![Some(head)] + placeholders::<V>(k as nat),
            decreases count - k,
        {
            let ghost filled = slot_views(slots@);
            slots.push(None);
            proof {
                assert(slot_views(slots@) =~= filled.push(None));
                assert(placeholders::<V>((k + 1) as nat) =~= placeholders::<V>(k as nat).push(None));
                assert(slot_views(slots@) =~= before + seq![Some(head)] + placeholders::<V>(
                    (k + 1) as nat,
                ));
            }
            k += 1;
        }
        proof {
            assert(slot_views(slots@) + slot_table(pending.drop_first()) =~= before + slot_table(
                pending,
            ));
        }
    }
    proof {
        assert(slot_views(slots@) + slot_table(route_views(routes@)) =~= slot_views(slots@));
    }
    slots
}

} // verus!
