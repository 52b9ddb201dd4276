//! Pattern records and dispatch results.

use vstd::prelude::*;
use vstd::hash_map::StringHashMap;

verus! {

/// What a route is, as mathematics: its pattern text, its parameter names
/// in order, and its handler for each method.
pub struct RouteView<V> {
    pub pattern: Seq<char>,
    pub params: Seq<Seq<char>>,
    pub handlers: Map<Seq<char>, V>,
}

/// The views of a list of string slices.
pub open spec fn names(params: Seq<&str>) -> Seq<Seq<char>> {
    params.map_values(|p: &str| p@)
}

/// One route: a pattern, the names of its capture groups from left to
/// right, and a handler per request method.
#[verifier::reject_recursive_types(V)]
pub struct Route<'a, V> {
    regex: &'a str,
    params: Vec<&'a str>,
    handlers: StringHashMap<V>,
}

impl<'a, V> View for Route<'a, V> {
    type V = RouteView<V>;

    closed spec fn view(&self) -> RouteView<V> {
        RouteView {
            pattern: self.regex@,
            params: names(self.params@),
            handlers: self.handlers@,
        }
    }
}

impl<'a, V> Route<'a, V> {
    /// Construct a route from its pattern and parameter names, with no
    /// handler yet.
    pub fn new(regex: &'a str, params: Vec<&'a str>) -> (route: Self)
        ensures
            route@.pattern == regex@,
            route@.params == names(params@),
            route@.handlers == Map::<Seq<char>, V>::empty(),
    {
        Route { regex, params, handlers: StringHashMap::new() }
    }

    /// Insert the handler for a request method, replacing an earlier one
    /// for the same method.
    pub fn set(&mut self, method: &'a str, handler: V)
        ensures
            final(self)@.pattern == old(self)@.pattern,
            final(self)@.params == old(self)@.params,
            final(self)@.handlers == old(self)@.handlers.insert(method@, handler),
    {
        self.handlers.insert(method.to_owned(), handler);
    }

    /// The route's pattern text.
    pub fn regex(&self) -> (pattern: &str)
        ensures
            pattern@ == self@.pattern,
    {
        self.regex
    }

    /// The route's parameter names, in the order of its capture groups.
    pub fn params(&self) -> (params: &[&str])
        ensures
            names(params@) == self@.params,
    {
        self.params.as_slice()
    }

    /// The route's handlers by request method.
    pub fn handlers(&self) -> (handlers: &StringHashMap<V>)
        ensures
            handlers@ == self@.handlers,
    {
        &self.handlers
    }
}

/// The views of a list of routes.
pub open spec fn route_views<V>(routes: Seq<Route<V>>) -> Seq<RouteView<V>> {
    routes.map_values(|r: Route<V>| r@)
}

/// The pattern texts of a list of routes.
pub open spec fn patterns<V>(routes: Seq<RouteView<V>>) -> Seq<Seq<char>> {
    routes.map_values(|r: RouteView<V>| r.pattern)
}

/// What a dispatch result is, as mathematics: the handler that was
/// resolved, and the text bound to each parameter name.
pub struct RouteMatchView<V> {
    pub handler: V,
    pub params: Map<Seq<char>, Seq<char>>,
}

/// The same bindings with each bound slice taken as text.
pub open spec fn bound_texts(params: Map<Seq<char>, &str>) -> Map<Seq<char>, Seq<char>> {
    params.map_values(|text: &str| text@)
}

/// The outcome of a dispatch that found a route: its handler for the
/// request's method, and the parameters read from the path.
pub struct RouteMatch<'a, V> {
    handler: &'a V,
    params: StringHashMap<&'a str>,
}

impl<'a, V> View for RouteMatch<'a, V> {
    type V = RouteMatchView<V>;

    closed spec fn view(&self) -> RouteMatchView<V> {
        RouteMatchView { handler: *self.handler, params: bound_texts(self.params@) }
    }
}

impl<'a, V> RouteMatch<'a, V> {
    /// Pair a handler with the parameters bound for it.
    pub(crate) fn new(handler: &'a V, params: StringHashMap<&'a str>) -> (found: Self)
        ensures
            found@.handler == *handler,
            found@.params == bound_texts(params@),
    {
        RouteMatch { handler, params }
    }

    /// The handler that was resolved.
    pub fn handler(&self) -> (handler: &'a V)
        ensures
            *handler == self@.handler,
    {
        self.handler
    }

    /// The parameters read from the path, by name.
    pub fn params<'b>(&'b self) -> (params: &'b StringHashMap<&'a str>)
        ensures
            bound_texts(params@) == self@.params,
    {
        &self.params
    }
}

} // verus!
