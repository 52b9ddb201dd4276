//! Decoding a match of the combined pattern: which route fired, which
//! handler answers the method, and which text each parameter is bound to.

use vstd::prelude::*;
use vstd::hash_map::StringHashMap;
use crate::engine::texts;
use crate::route::{bound_texts, names, Route, RouteMatch, RouteMatchView, RouteView};
use crate::slots::slot_views;

verus! {

/// The least index from `from` on at which a group is set, or the number
/// of groups where none is.
pub open spec fn first_set_from(groups: Seq<Option<Seq<char>>>, from: int) -> int
    decreases groups.len() - from,
{
    if from >= groups.len() {
        groups.len() as int
    } else if from >= 0 && groups[from].is_some() {
        from
    } else {
        first_set_from(groups, from + 1)
    }
}

/// The parameter bindings of a route whose anchor is capture group
/// `anchor`, for the first `n` parameters: parameter `j` is bound to the
/// text of group `anchor + 1 + j`. A parameter whose group is not set, or
/// does not exist, is left unbound; of two parameters with one name the
/// later one stays.
pub open spec fn bindings(
    params: Seq<Seq<char>>,
    groups: Seq<Option<Seq<char>>>,
    anchor: int,
    n: nat,
) -> Map<Seq<char>, Seq<char>>
    decreases n,
{
    if n == 0 {
        Map::empty()
    } else {
        let j = n - 1;
        let earlier = bindings(params, groups, anchor, j as nat);
        let group = anchor + 1 + j;
        if 0 <= j < params.len() && 0 <= group < groups.len() && groups[group].is_some() {
            earlier.insert(params[j], groups[group].unwrap())
        } else {
            earlier
        }
    }
}

/// The outcome of a match with capture groups `groups` for a request with
/// method `method`, against the slot table `slots`.
///
/// The first set group after group 0 names a slot; the route in that slot
/// fired. There is no outcome where no such group is set, where the slot
/// does not exist or holds no route, or where the route has no handler for
/// the method.
pub open spec fn resolved<V>(
    slots: Seq<Option<RouteView<V>>>,
    method: Seq<char>,
    groups: Seq<Option<Seq<char>>>,
) -> Option<RouteMatchView<V>> {
    let anchor = first_set_from(groups, 1);
    if anchor >= groups.len() || anchor - 1 >= slots.len() {
        None
    } else {
        match slots[anchor - 1] {
            None => None,
            Some(route) => if route.handlers.contains_key(method) {
                Some(
                    RouteMatchView {
                        handler: route.handlers[method],
                        params: bindings(route.params, groups, anchor, route.params.len()),
                    },
                )
            } else {
                None
            },
        }
    }
}

/// The view of an optional dispatch result.
pub open spec fn outcome<V>(found: Option<RouteMatch<V>>) -> Option<RouteMatchView<V>> {
    match found {
        Some(m) => Some(m@),
        None => None,
    }
}

/// What `first_set_from` finds, said directly: no group before it is set,
/// and the group at it is set unless it is past the last group.
pub proof fn lemma_first_set_from(groups: Seq<Option<Seq<char>>>, from: int)
    requires
        0 <= from <= groups.len(),
    ensures
        from <= first_set_from(groups, from) <= groups.len(),
        forall|i: int| from <= i < first_set_from(groups, from) ==> groups[i].is_none(),
        first_set_from(groups, from) < groups.len() ==> groups[first_set_from(
            groups,
            from,
        )].is_some(),
    decreases groups.len() - from,
{
    if from < groups.len() && !groups[from].is_some() {
        lemma_first_set_from(groups, from + 1);
    }
}

/// The index of the first set group after group 0, or the number of
/// groups where none is set.
pub fn first_set(groups: &Vec<Option<&str>>) -> (index: usize)
    ensures
        index == first_set_from(texts(groups@), 1),
        index < groups.len() ==> 1 <= index,
{
    let mut index: usize = 1;
    while index < groups.len()
        invariant
            1 <= index,
            first_set_from(texts(groups@), index as int) == first_set_from(texts(groups@), 1),
        decreases groups.len() - index,
    {
        if groups[index].is_some() {
            return index;
        }
        index += 1;
    }
    groups.len()
}

/// Read the parameters of `route` out of `groups`, where the route's
/// anchor is capture group `anchor`.
pub fn bind<'b, V>(route: &'b Route<V>, groups: &Vec<Option<&'b str>>, anchor: usize) -> (params:
    StringHashMap<&'b str>)
    ensures
        bound_texts(params@) == bindings(
            route@.params,
            texts(groups@),
            anchor as int,
            route@.params.len(),
        ),
{
    let keys = route.params();
    let mut params: StringHashMap<&'b str> = StringHashMap::with_capacity(keys.len());
    let room = if anchor < groups.len() {
        groups.len() - anchor - 1
    } else {
        0
    };
    let mut j: usize = 0;
    proof {
        assert(bound_texts(params@) =~= Map::empty());
    }
    while j < keys.len()
        invariant
            j <= keys.len(),
            room as int == if anchor < groups.len() {
                groups.len() - anchor - 1
            } else {
                0
            },
            names(keys@) == route@.params,
            bound_texts(params@) == bindings(
                route@.params,
                texts(groups@),
                anchor as int,
                j as nat,
            ),
        decreases keys.len() - j,
    {
        let ghost earlier = params@;
        if j < room {
            match groups[anchor + 1 + j] {
                Some(text) => {
                    params.insert(keys[j].to_owned(), text);
                    proof {
                        assert(bound_texts(params@) =~= bound_texts(earlier).insert(
                            keys[j as int]@,
                            text@,
                        ));
                    }
                },
                None => {},
            }
        }
        j += 1;
    }
    params
}

/// Decode a match: find the route that fired, its handler for `method`,
/// and the text of each of its parameters.
pub fn resolve<'b, V>(
    slots: &'b Vec<Option<Route<V>>>,
    method: &str,
    groups: &Vec<Option<&'b str>>,
) -> (found: Option<RouteMatch<'b, V>>)
    ensures
        outcome(found) == resolved(slot_views(slots@), method@, texts(groups@)),
{
    let anchor = first_set(groups);
    if anchor >= groups.len() || anchor - 1 >= slots.len() {
        return None;
    }
    match &slots[anchor - 1] {
        None => None,
        Some(route) => {
            match route.handlers().get(method) {
                None => None,
                Some(handler) => {
                    let params = bind(route, groups, anchor);
                    Some(RouteMatch::new(handler, params))
                },
            }
        },
    }
}

} // verus!
