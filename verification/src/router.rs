//! The builder that collects routes, and the router compiled from them.

use vstd::prelude::*;
use regex::Regex;
use crate::dispatch::{bindings, first_set_from, outcome, resolve, resolved};
use crate::engine::{capture, compile, compiled, search};
use crate::error::RouterError;
use crate::pattern::{combined, construct_combined_regex};
use crate::route::{patterns, route_views, Route, RouteMatch, RouteMatchView, RouteView};
use crate::slots::{
    anchor_of, anchors, lay_out, lemma_anchor_slot, lemma_anchors_of_slot_table, slot_table,
    slot_views,
};

verus! {

/// The views of a list of borrowed routes.
pub open spec fn borrowed_views<V>(routes: Seq<&Route<V>>) -> Seq<RouteView<V>> {
    routes.map_values(|r: &Route<V>| r@)
}

/// Whether `result` is what building a router from `routes` gives.
///
/// Without routes there is no router. Otherwise the engine decides on the
/// combined pattern of the routes: where it refuses the pattern, its
/// diagnostic is the error; where it accepts, the router holds the compiled
/// expression and the slot table of the routes.
pub open spec fn built<V>(routes: Seq<RouteView<V>>, result: Result<Router<V>, RouterError>) -> bool {
    if routes.len() == 0 {
        result matches Err(RouterError::EmptyRouterError)
    } else {
        match compiled(combined(patterns(routes))) {
            Ok(regex) => result matches Ok(router) && router.engine() == regex
                && router.routes_view() == routes && router.wf(),
            Err(diagnostic) => result matches Err(RouterError::RegexError(err)) && err
                == diagnostic,
        }
    }
}

/// A compiled set of routes: the combined pattern and its slot table.
#[verifier::reject_recursive_types(V)]
pub struct Router<'a, V> {
    regex: Regex,
    routes: Vec<Option<Route<'a, V>>>,
}

impl<'a, V> Router<'a, V> {
    /// The slot table.
    pub closed spec fn slots(&self) -> Seq<Option<RouteView<V>>> {
        slot_views(self.routes@)
    }

    /// The compiled expression that requests are matched against.
    pub closed spec fn engine(&self) -> Regex {
        self.regex
    }

    /// The routes of this router, highest priority first.
    pub open spec fn routes_view(&self) -> Seq<RouteView<V>> {
        anchors(self.slots())
    }

    /// The router is the compilation of its routes: its expression is the
    /// engine's answer to their combined pattern, and its slots are their
    /// slot table.
    pub open spec fn wf(&self) -> bool {
        &&& self.routes_view().len() > 0
        &&& self.slots() == slot_table(self.routes_view())
        &&& compiled(combined(patterns(self.routes_view()))) == Ok::<Regex, regex::Error>(
            self.engine(),
        )
    }

    /// The outcome of a request: the engine's match of the path, decoded
    /// against the slot table.
    pub open spec fn dispatched(&self, method: Seq<char>, path: Seq<char>) -> Option<
        RouteMatchView<V>,
    > {
        match search(self.engine(), path) {
            Some(groups) => resolved(self.slots(), method, groups),
            None => None,
        }
    }

    /// Make a router of the engine's answer for the combined pattern of
    /// `routes`: hand on its diagnostic, or lay out the slot table.
    pub fn assemble(compiled: Result<Regex, regex::Error>, routes: Vec<Route<'a, V>>) -> (result:
        Result<Self, RouterError>)
        ensures
            match result {
                Ok(router) => compiled == Ok::<Regex, regex::Error>(router.engine())
                    && router.slots() == slot_table(route_views(routes@))
                    && router.routes_view() == route_views(routes@),
                Err(RouterError::RegexError(err)) => compiled == Err::<Regex, regex::Error>(err),
                Err(RouterError::EmptyRouterError) => false,
            },
    {
        match compiled {
            Err(err) => Err(RouterError::from(err)),
            Ok(regex) => {
                proof {
                    lemma_anchors_of_slot_table(route_views(routes@));
                }
                Ok(Router { regex, routes: lay_out(routes) })
            },
        }
    }

    /// Compile the routes of a builder.
    fn new(builder: RouterBuilder<'a, V>) -> (result: Result<Self, RouterError>)
        ensures
            built(builder@, result),
    {
        if builder.routes.len() == 0 {
            return Err(RouterError::EmptyRouterError);
        }
        let text = construct_combined_regex(builder.routes.as_slice());
        let compiled = compile(text.as_str());
        Self::assemble(compiled, builder.routes)
    }

    /// Dispatch a request: the handler of the highest-priority route that
    /// matches `path`, for `method`, with the route's parameters read from
    /// the path. `None` where no route matches or the route that matches
    /// has no handler for `method`.
    pub fn dispatch<'b>(&'b self, method: &'b str, path: &'b str) -> (found: Option<
        RouteMatch<'b, V>,
    >)
        ensures
            outcome(found) == self.dispatched(method@, path@),
    {
        match capture(&self.regex, path) {
            Some(groups) => resolve(&self.routes, method, &groups),
            None => None,
        }
    }

    /// The routes of this router, highest priority first.
    pub fn routes(&self) -> (routes: Vec<&Route<'a, V>>)
        ensures
            borrowed_views(routes@) == self.routes_view(),
    {
        let mut routes: Vec<&Route<'a, V>> = Vec::new();
        let mut i: usize = 0;
        proof {
            assert(borrowed_views(routes@) =~= anchors(self.slots().take(0)));
        }
        while i < self.routes.len()
            invariant
                i <= self.routes.len(),
                borrowed_views(routes@) == anchors(self.slots().take(i as int)),
            decreases self.routes.len() - i,
        {
            let ghost held = borrowed_views(routes@);
            proof {
                assert(self.slots().take(i + 1).drop_last() =~= self.slots().take(i as int));
            }
            match &self.routes[i] {
                Some(route) => {
                    routes.push(route);
                    proof {
                        assert(borrowed_views(routes@) =~= held.push(route@));
                    }
                },
                None => {},
            }
            i += 1;
        }
        proof {
            assert(self.slots().take(i as int) =~= self.slots());
        }
        routes
    }
}

/// Dispatch has no memory: two dispatches of one request against one
/// router have the same outcome.
pub proof fn lemma_dispatch_repeatable<V>(
    router: Router<V>,
    method: Seq<char>,
    path: Seq<char>,
    first: Option<RouteMatch<V>>,
    second: Option<RouteMatch<V>>,
)
    requires
        outcome(first) == router.dispatched(method, path),
        outcome(second) == router.dispatched(method, path),
    ensures
        outcome(first) == outcome(second),
{
}

/// Decoding goes by the slot arithmetic: where the first group that the
/// engine sets after group 0 is the anchor group of route `i`, the outcome
/// is that route's handler for the method, with parameter `j` bound to the
/// text of the `j`-th group after the anchor; and there is no outcome where
/// the route has no handler for the method.
pub proof fn lemma_dispatch_decodes<V>(
    router: Router<V>,
    i: int,
    method: Seq<char>,
    path: Seq<char>,
    groups: Seq<Option<Seq<char>>>,
)
    requires
        router.wf(),
        0 <= i < router.routes_view().len(),
        search(router.engine(), path) == Some(groups),
        first_set_from(groups, 1) == anchor_of(router.routes_view(), i) + 1,
        first_set_from(groups, 1) < groups.len(),
    ensures
        router.dispatched(method, path) == (if router.routes_view()[i].handlers.contains_key(
            method,
        ) {
            Some(
                RouteMatchView {
                    handler: router.routes_view()[i].handlers[method],
                    params: bindings(
                        router.routes_view()[i].params,
                        groups,
                        (anchor_of(router.routes_view(), i) + 1) as int,
                        router.routes_view()[i].params.len(),
                    ),
                },
            )
        } else {
            None
        }),
{
    lemma_anchor_slot(router.routes_view(), i);
}

/// Collects routes in the order of their priority.
#[verifier::reject_recursive_types(V)]
pub struct RouterBuilder<'a, V> {
    routes: Vec<Route<'a, V>>,
}

impl<'a, V> View for RouterBuilder<'a, V> {
    type V = Seq<RouteView<V>>;

    closed spec fn view(&self) -> Seq<RouteView<V>> {
        route_views(self.routes@)
    }
}

impl<'a, V> RouterBuilder<'a, V> {
    /// An empty builder.
    pub fn new() -> (builder: Self)
        ensures
            builder@ == Seq::<RouteView<V>>::empty(),
    {
        let builder = RouterBuilder { routes: Vec::new() };
        proof {
            assert(builder@ =~= Seq::<RouteView<V>>::empty());
        }
        builder
    }

    /// Add a route, below every route defined before it: where a path
    /// matches several routes, the one defined first is dispatched to.
    pub fn define(&mut self, route: Route<'a, V>)
        ensures
            final(self)@ == old(self)@.push(route@),
    {
        self.routes.push(route);
        proof {
            assert(self@ =~= old(self)@.push(route@));
        }
    }

    /// Compile the routes into a router. Fails where no route was defined,
    /// and where the engine refuses the combined pattern of the routes.
    pub fn build(self) -> (result: Result<Router<'a, V>, RouterError>)
        ensures
            built(self@, result),
    {
        Router::new(self)
    }
}

impl<'a, V> Default for RouterBuilder<'a, V> {
    fn default() -> (builder: Self)
        ensures
            builder@ == Seq::<RouteView<V>>::empty(),
    {
        Self::new()
    }
}

} // verus!
