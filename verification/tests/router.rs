use regex_router::{Route, RouterBuilder, RouterError};

fn route<'a, V>(pattern: &'a str, params: Vec<&'a str>, handlers: Vec<(&'a str, V)>) -> Route<'a, V> {
    let mut route = Route::new(pattern, params);
    for (method, handler) in handlers {
        route.set(method, handler);
    }
    route
}

#[test]
fn empty() {
    let builder = RouterBuilder::<()>::new();
    assert!(builder.build().is_err());
}

#[test]
fn singular() {
    let mut builder = RouterBuilder::<&str>::new();
    builder.define(route(r"^/test$", vec![], vec![("GET", "Hello.")]));
    let router = builder.build().unwrap();

    assert_eq!(*router.dispatch("GET", "/test").unwrap().handler(), "Hello.");
    assert!(router.dispatch("POST", "/test").is_none());
    assert!(router.dispatch("GET", "/test-test").is_none());
}

#[test]
fn singular_variable() {
    let mut builder = RouterBuilder::<&str>::new();
    builder.define(route(r"^/test/(.+)$", vec!["example"], vec![("GET", "Hello.")]));
    let router = builder.build().unwrap();

    let r_match = router.dispatch("GET", "/test/World.").unwrap();
    let param = r_match.params().get("example").unwrap();

    assert_eq!(*param, "World.");
    assert_eq!(*r_match.handler(), "Hello.");

    assert!(router.dispatch("POST", "/test/World.").is_none());
    assert!(router.dispatch("GET", "/test-test").is_none());
}

#[test]
fn multiple_methods() {
    let mut builder = RouterBuilder::<&str>::new();
    builder.define(route(r"^/test$", vec![], vec![("GET", "Hello."), ("POST", "World.")]));
    let router = builder.build().unwrap();

    assert_eq!(*router.dispatch("GET", "/test").unwrap().handler(), "Hello.");
    assert_eq!(*router.dispatch("POST", "/test").unwrap().handler(), "World.");

    assert!(router.dispatch("PUT", "/test").is_none());

    assert!(router.dispatch("GET", "/test-test").is_none());
    assert!(router.dispatch("POST", "/test-test").is_none());
}

#[test]
fn build_without_routes_reports_empty_router() {
    let builder = RouterBuilder::<u8>::new();
    assert!(matches!(builder.build().err(), Some(RouterError::EmptyRouterError)));
    let builder = RouterBuilder::<u8>::default();
    assert!(matches!(builder.build().err(), Some(RouterError::EmptyRouterError)));
}

#[test]
fn build_with_valid_routes_succeeds() {
    let mut builder = RouterBuilder::<u8>::new();
    builder.define(route("/a", vec![], vec![("GET", 1)]));
    builder.define(route(r"/b/(\d+)", vec!["n"], vec![("GET", 2)]));
    builder.define(route("/c/([a-z]+)/([0-9]+)", vec!["word", "number"], vec![("PUT", 3)]));
    assert!(builder.build().is_ok());
}

#[test]
fn build_with_one_invalid_pattern_reports_regex_error() {
    let mut builder = RouterBuilder::<u8>::new();
    builder.define(route("/a", vec![], vec![("GET", 1)]));
    builder.define(route("/b/[", vec![], vec![("GET", 2)]));
    builder.define(route("/c", vec![], vec![("GET", 3)]));
    match builder.build() {
        Err(RouterError::RegexError(err)) => assert!(matches!(err, regex::Error::Syntax(_))),
        Err(RouterError::EmptyRouterError) => panic!("the builder held routes"),
        Ok(_) => panic!("the second pattern is invalid"),
    }
}

#[test]
fn static_route_matches_whole_path_only() {
    let mut builder = RouterBuilder::<u32>::new();
    builder.define(route("/hello", vec![], vec![("GET", 1)]));
    let router = builder.build().unwrap();

    let found = router.dispatch("GET", "/hello").unwrap();
    assert_eq!(*found.handler(), 1);
    assert_eq!(found.params().len(), 0);
    assert!(router.dispatch("POST", "/hello").is_none());
    assert!(router.dispatch("GET", "/hello-world").is_none());
    assert!(router.dispatch("GET", "/say/hello").is_none());
}

#[test]
fn parameter_is_read_from_path() {
    let mut builder = RouterBuilder::<u32>::new();
    builder.define(route(r"/items/(\d+)", vec!["id"], vec![("GET", 2)]));
    let router = builder.build().unwrap();

    let found = router.dispatch("GET", "/items/42").unwrap();
    assert_eq!(*found.handler(), 2);
    assert_eq!(found.params().len(), 1);
    assert_eq!(found.params().get("id"), Some(&"42"));
    assert!(router.dispatch("GET", "/items/forty").is_none());
}

#[test]
fn earlier_route_wins() {
    let mut builder = RouterBuilder::<&str>::new();
    builder.define(route("/x", vec![], vec![("GET", "first")]));
    builder.define(route("/(.+)", vec!["rest"], vec![("GET", "second")]));
    let router = builder.build().unwrap();

    let found = router.dispatch("GET", "/x").unwrap();
    assert_eq!(*found.handler(), "first");
    assert_eq!(found.params().len(), 0);

    let found = router.dispatch("GET", "/y").unwrap();
    assert_eq!(*found.handler(), "second");
    assert_eq!(found.params().get("rest"), Some(&"y"));
}

#[test]
fn earlier_route_without_method_hides_later_route() {
    let mut builder = RouterBuilder::<&str>::new();
    builder.define(route("/x", vec![], vec![("GET", "first")]));
    builder.define(route("/(.+)", vec!["rest"], vec![("POST", "second")]));
    let router = builder.build().unwrap();

    assert!(router.dispatch("POST", "/x").is_none());
    assert_eq!(*router.dispatch("POST", "/z").unwrap().handler(), "second");
}

#[test]
fn two_parameters_keep_their_names() {
    let mut builder = RouterBuilder::<u8>::new();
    builder.define(route("/", vec![], vec![("GET", 0)]));
    builder.define(route(r"/pets/(\w+)", vec!["pet"], vec![("GET", 1)]));
    builder.define(route(r"/people/(\w+)/(\d+)", vec!["name", "age"], vec![("GET", 2)]));
    builder.define(route(r"/towns/(\w+)", vec!["town"], vec![("GET", 3)]));
    let router = builder.build().unwrap();

    let found = router.dispatch("GET", "/people/Alice/30").unwrap();
    assert_eq!(*found.handler(), 2);
    assert_eq!(found.params().len(), 2);
    assert_eq!(found.params().get("name"), Some(&"Alice"));
    assert_eq!(found.params().get("age"), Some(&"30"));

    let found = router.dispatch("GET", "/towns/Delft").unwrap();
    assert_eq!(*found.handler(), 3);
    assert_eq!(found.params().len(), 1);
    assert_eq!(found.params().get("town"), Some(&"Delft"));

    let found = router.dispatch("GET", "/").unwrap();
    assert_eq!(*found.handler(), 0);
    assert_eq!(found.params().len(), 0);
}

#[test]
fn dispatch_is_repeatable() {
    let mut builder = RouterBuilder::<u8>::new();
    builder.define(route(r"/items/(\d+)", vec!["id"], vec![("GET", 7)]));
    let router = builder.build().unwrap();

    for _ in 0..3 {
        let found = router.dispatch("GET", "/items/5").unwrap();
        assert_eq!(*found.handler(), 7);
        assert_eq!(found.params().get("id"), Some(&"5"));
        assert!(router.dispatch("GET", "/items/").is_none());
        assert!(router.dispatch("DELETE", "/items/5").is_none());
    }
}

#[test]
fn optional_group_that_is_not_set_leaves_parameter_unbound() {
    let mut builder = RouterBuilder::<u8>::new();
    builder.define(route(r"/items(?:/(\d+))?", vec!["id"], vec![("GET", 1)]));
    let router = builder.build().unwrap();

    let found = router.dispatch("GET", "/items").unwrap();
    assert_eq!(*found.handler(), 1);
    assert_eq!(found.params().len(), 0);
    assert!(found.params().get("id").is_none());

    let found = router.dispatch("GET", "/items/9").unwrap();
    assert_eq!(found.params().get("id"), Some(&"9"));
}

#[test]
fn routes_are_listed_in_priority_order() {
    let mut builder = RouterBuilder::<u8>::new();
    builder.define(route("/a/(.)/(.)", vec!["x", "y"], vec![("GET", 1)]));
    builder.define(route("/b", vec![], vec![("GET", 2)]));
    builder.define(route("/c/(.)", vec!["z"], vec![("GET", 3)]));
    let router = builder.build().unwrap();

    let routes = router.routes();
    assert_eq!(routes.len(), 3);
    assert_eq!(routes[0].regex(), "/a/(.)/(.)");
    assert_eq!(routes[1].regex(), "/b");
    assert_eq!(routes[2].regex(), "/c/(.)");
    assert_eq!(routes[2].params(), &["z"]);
}

#[test]
fn route_keeps_what_it_was_given() {
    let mut route = Route::<u8>::new("/p/(.)", vec!["one"]);
    assert_eq!(route.regex(), "/p/(.)");
    assert_eq!(route.params(), &["one"]);
    assert_eq!(route.handlers().len(), 0);

    route.set("GET", 1);
    route.set("POST", 2);
    route.set("GET", 3);
    assert_eq!(route.handlers().len(), 2);
    assert_eq!(route.handlers().get("GET"), Some(&3));
    assert_eq!(route.handlers().get("POST"), Some(&2));
    assert_eq!(route.handlers().get("PUT"), None);
}

#[test]
fn patterns_are_judged_in_combination() {
    // Alone the engine refuses this pattern; wrapped in its branch the text
    // is balanced, and the engine accepts it.
    assert!(regex::Regex::new("a)(b").is_err());
    let mut builder = RouterBuilder::<u8>::new();
    builder.define(route("a)(b", vec!["b"], vec![("GET", 1)]));
    assert!(builder.build().is_ok());

    // Alone the engine accepts this pattern; wrapped, its comment swallows
    // the end of the branch.
    assert!(regex::Regex::new("(?x)a # word").is_ok());
    let mut builder = RouterBuilder::<u8>::new();
    builder.define(route("(?x)a # word", vec![], vec![("GET", 1)]));
    assert!(matches!(builder.build().err(), Some(RouterError::RegexError(_))));
}
