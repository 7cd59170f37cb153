use futures_util::FutureExt;
use http_body_util::BodyExt;
use process_supervisor::server::http::http_router::{
    find_param, path_segments, route, route_request_params, ParamType, RouteData,
};
use process_supervisor::server::http::http_routes::{
    GetStateList, HttpReply, KillRoute, LaunchRoute, Handleable, Route404, TerminateRoute,
};
use process_supervisor::server::http::http_server::{
    default_route, init_routes, resolve, Command,
};
use process_supervisor::supervisor::results::{LaunchResult, OldKillResult, TerminateResult};

fn data(method: &str, path: &str, params: Option<Vec<(&str, ParamType)>>) -> RouteData {
    RouteData {
        method: method.to_string(),
        path: path.to_string(),
        params: params
            .map(|list| list.into_iter().map(|(name, kind)| (name.to_string(), kind)).collect()),
    }
}

fn owned(pairs: &[(&str, &str)]) -> Vec<(String, String)> {
    pairs.iter().map(|(name, value)| (name.to_string(), value.to_string())).collect()
}

#[test]
fn path_is_cut_at_slashes() {
    assert_eq!(path_segments("/launch/abc"), vec!["launch", "abc"]);
    assert_eq!(path_segments("launch/abc"), vec!["launch", "abc"]);
    assert_eq!(path_segments("///launch/abc//"), vec!["launch", "abc"]);
    assert_eq!(path_segments("/a//b/"), vec!["a", "", "b"]);
    assert_eq!(path_segments("/state-list"), vec!["state-list"]);
    assert_eq!(path_segments(""), vec![""]);
    assert_eq!(path_segments("/"), vec![""]);
    assert_eq!(path_segments("////"), vec![""]);
    assert_eq!(path_segments("/é/ü"), vec!["é", "ü"]);
}

#[test]
fn path_segments_agree_with_std() {
    for path in ["/a/b/c", "a", "", "/", "//", "/a//", "//a//b//c//", "/launch/{id}", "a/b/"] {
        let expected: Vec<&str> = path.trim_matches('/').split('/').collect();
        assert_eq!(path_segments(path), expected, "{:?}", path);
    }
}

#[test]
fn route_is_the_first_that_matches() {
    let routes = vec![
        Handleable::Launch(LaunchRoute { data: data("POST", "/x/{id}", None) }),
        Handleable::Kill(KillRoute { data: data("POST", "/x/fixed", None) }),
        Handleable::StateList(GetStateList { data: data("GET", "/x/{id}", None) }),
    ];
    assert_eq!(route("POST", "/x/fixed", &routes), Some(0));
    assert_eq!(route("GET", "/x/fixed", &routes), Some(2));
    assert_eq!(route("PUT", "/x/fixed", &routes), None);
    assert_eq!(route("POST", "/x", &routes), None);
    assert_eq!(route("POST", "/x/a/b", &routes), None);
    assert_eq!(route("POST", "/y/a", &routes), None);
    assert_eq!(route("post", "/x/a", &routes), None);
    assert_eq!(route("POST", "x/a/", &routes), Some(0));
    assert_eq!(route("POST", "/x/", &routes), None);
    assert_eq!(route("POST", "/x//", &routes), None);
    assert_eq!(route("POST", "/x/a", &Vec::new()), None);
}

#[test]
fn variable_segments_need_both_braces() {
    let routes = vec![
        Handleable::Launch(LaunchRoute { data: data("GET", "/{open/x", None) }),
        Handleable::Kill(KillRoute { data: data("GET", "/close}/x", None) }),
        Handleable::Terminate(TerminateRoute { data: data("GET", "/{}/x", None) }),
    ];
    assert_eq!(route("GET", "/{open/x", &routes), Some(0));
    assert_eq!(route("GET", "/close}/x", &routes), Some(1));
    assert_eq!(route("GET", "/anything/x", &routes), Some(2));
}

#[test]
fn request_params_are_read_from_variable_segments() {
    let launch = data("POST", "/launch/{id}", Some(vec![("id", ParamType::AnyString)]));
    assert_eq!(route_request_params("/launch/abc", &launch), owned(&[("id", "abc")]));
    assert_eq!(route_request_params("/launch/42/", &launch), owned(&[("id", "42")]));
    assert_eq!(route_request_params("/other/abc", &launch), owned(&[("id", "abc")]));
    assert_eq!(route_request_params("/launch", &launch), owned(&[]));
    assert_eq!(route_request_params("/launch/abc/extra", &launch), owned(&[("id", "abc")]));
}

#[test]
fn request_params_of_a_route_without_declarations_are_empty() {
    assert_eq!(route_request_params("/launch/abc", &data("POST", "/launch/{id}", None)), owned(&[]));
    assert_eq!(
        route_request_params("/launch/abc", &data("POST", "/launch/{id}", Some(vec![]))),
        owned(&[])
    );
    let other = data("POST", "/launch/{id}", Some(vec![("name", ParamType::AnyString)]));
    assert_eq!(route_request_params("/launch/abc", &other), owned(&[]));
}

#[test]
fn integer_params_must_be_integers() {
    let typed = data(
        "GET",
        "/{a}/{b}",
        Some(vec![("a", ParamType::Integer), ("b", ParamType::AnyString)]),
    );
    assert_eq!(route_request_params("/12/x", &typed), owned(&[("a", "12"), ("b", "x")]));
    assert_eq!(route_request_params("/-12/x", &typed), owned(&[("a", "-12"), ("b", "x")]));
    assert_eq!(route_request_params("/+12/x", &typed), owned(&[("a", "+12"), ("b", "x")]));
    assert_eq!(route_request_params("/2147483647/x", &typed), owned(&[("a", "2147483647"), ("b", "x")]));
    assert_eq!(route_request_params("/2147483648/x", &typed), owned(&[("b", "x")]));
    assert_eq!(route_request_params("/twelve/x", &typed), owned(&[("b", "x")]));
    assert_eq!(route_request_params("/1.5/x", &typed), owned(&[("b", "x")]));
    // Slashes at the ends are taken off first, so the one segment left is read as `a`.
    assert_eq!(route_request_params("//x", &typed), owned(&[]));
    assert_eq!(route_request_params("//7", &typed), owned(&[("a", "7")]));
}

#[test]
fn param_names_lose_all_braces_at_their_ends() {
    let nested = data("GET", "/{{id}}/{}", Some(vec![("id", ParamType::AnyString), ("", ParamType::AnyString)]));
    assert_eq!(route_request_params("/v/w", &nested), owned(&[("id", "v"), ("", "w")]));
}

#[test]
fn first_declaration_of_a_name_counts() {
    let twice = data(
        "GET",
        "/{id}",
        Some(vec![("id", ParamType::Integer), ("id", ParamType::AnyString)]),
    );
    assert_eq!(route_request_params("/abc", &twice), owned(&[]));
    assert_eq!(route_request_params("/7", &twice), owned(&[("id", "7")]));
}

#[test]
fn find_param_takes_the_last_value_of_a_name() {
    let params = owned(&[("id", "first"), ("other", "x"), ("id", "last")]);
    assert_eq!(find_param(&params, "id"), Some(&"last".to_string()));
    assert_eq!(find_param(&params, "other"), Some(&"x".to_string()));
    assert_eq!(find_param(&params, "missing"), None);
    assert_eq!(find_param(&Vec::new(), "id"), None);
    let repeated = data("GET", "/{id}/{id}", Some(vec![("id", ParamType::AnyString)]));
    let read = route_request_params("/a/b", &repeated);
    assert_eq!(read, owned(&[("id", "a"), ("id", "b")]));
    assert_eq!(find_param(&read, "id"), Some(&"b".to_string()));
}

#[test]
fn route_table_of_the_command_surface() {
    let routes = init_routes();
    assert_eq!(routes.len(), 4);
    let expected = [
        ("POST", "/launch/{id}"),
        ("POST", "/terminate/{id}"),
        ("POST", "/kill/{id}"),
        ("GET", "/state-list"),
    ];
    for (found, (method, path)) in routes.iter().zip(expected) {
        assert_eq!(found.data().method, method);
        assert_eq!(found.data().path, path);
        assert_eq!(found.method(), method);
        assert_eq!(found.path(), path);
        assert_eq!(found.params(), found.data().params.as_ref());
    }
    assert!(matches!(routes[0], Handleable::Launch(_)));
    assert!(matches!(routes[1], Handleable::Terminate(_)));
    assert!(matches!(routes[2], Handleable::Kill(_)));
    assert!(matches!(routes[3], Handleable::StateList(_)));
    for with_id in &routes[..3] {
        let params = with_id.data().params.as_ref().unwrap();
        assert_eq!(params.len(), 1);
        assert_eq!(params[0].0, "id");
        assert_eq!(params[0].1, ParamType::AnyString);
    }
    assert!(routes[3].data().params.is_none());
    let fallback = default_route();
    assert!(matches!(fallback, Handleable::NotFound(_)));
    assert_eq!(fallback.data().method, "GET");
    assert_eq!(fallback.data().path, "/404");
}

#[test]
fn requests_resolve_to_commands() {
    let routes = init_routes();
    assert!(matches!(resolve("POST", "/launch/a", &routes), Command::Launch { id } if id == "a"));
    assert!(
        matches!(resolve("POST", "/terminate/x", &routes), Command::Terminate { id } if id == "x")
    );
    assert!(matches!(resolve("POST", "/kill/y-7", &routes), Command::Kill { id } if id == "y-7"));
    assert!(matches!(resolve("POST", "/kill/123", &routes), Command::Kill { id } if id == "123"));
    assert!(matches!(resolve("GET", "/state-list", &routes), Command::StateList));
    assert!(matches!(resolve("GET", "/state-list/", &routes), Command::StateList));
}

#[test]
fn unmatched_requests_resolve_to_not_found() {
    let routes = init_routes();
    for (method, path) in [
        ("GET", "/launch/a"),
        ("POST", "/state-list"),
        ("POST", "/launch"),
        ("POST", "/launch/a/b"),
        ("DELETE", "/kill/a"),
        ("GET", "/"),
        ("GET", ""),
        ("GET", "/404"),
        ("POST", "/Launch/a"),
    ] {
        assert!(matches!(resolve(method, path, &routes), Command::NotFound), "{} {}", method, path);
    }
    assert!(matches!(resolve("POST", "/launch/a", &Vec::new()), Command::NotFound));
}

#[test]
fn a_route_that_gets_no_id_resolves_to_not_found() {
    let routes = vec![Handleable::Launch(LaunchRoute { data: data("POST", "/launch/{id}", None) })];
    assert!(matches!(resolve("POST", "/launch/a", &routes), Command::NotFound));
    let typed = vec![Handleable::Kill(KillRoute {
        data: data("POST", "/kill/{id}", Some(vec![("id", ParamType::Integer)])),
    })];
    assert!(matches!(resolve("POST", "/kill/abc", &typed), Command::NotFound));
    assert!(matches!(resolve("POST", "/kill/12", &typed), Command::Kill { id } if id == "12"));
}

#[test]
fn launch_replies() {
    let route = LaunchRoute { data: data("POST", "/launch/{id}", None) };
    let mut started = LaunchResult::new();
    started.set_success(4321);
    let reply = route.respond("unit-1", &started);
    assert_eq!(reply.status, 200);
    assert_eq!(reply.body, "A process unit-1 was started, PID=4321");

    let mut failed = LaunchResult::new();
    failed.set_error("No such file or directory (os error 2)".to_string());
    let reply = route.respond("unit-1", &failed);
    assert_eq!(reply.status, 500);
    assert_eq!(
        reply.body,
        "Failed to start a process for source unit-1. Error: No such file or directory (os error 2)"
    );

    let reply = route.respond("unit-1", &LaunchResult::new());
    assert_eq!(reply.status, 500);
    assert_eq!(reply.body, "Failed to start a process for source unit-1. Error: Unknown error");
}

#[test]
fn terminate_replies() {
    let route = TerminateRoute { data: data("POST", "/terminate/{id}", None) };
    let mut sent = TerminateResult::new();
    sent.set_success();
    let reply = route.respond("x", &sent);
    assert_eq!(reply.status, 200);
    assert_eq!(reply.body, "A process got the termination signal for source x");

    let mut failed = TerminateResult::new();
    failed.set_error("Child not found PID for SIGTERM sending".to_string());
    let reply = route.respond("x", &failed);
    assert_eq!(reply.status, 500);
    assert_eq!(
        reply.body,
        "Failed to start a termination of the process for source x. Error: Child not found PID for SIGTERM sending"
    );
    let reply = route.respond("x", &TerminateResult::new());
    assert_eq!(
        reply.body,
        "Failed to start a termination of the process for source x. Error: Unknown error"
    );
}

#[test]
fn kill_replies() {
    let route = KillRoute { data: data("POST", "/kill/{id}", None) };
    let mut killed = OldKillResult::new();
    killed.set_success(Some(9999999));
    let reply = route.respond("y", &killed);
    assert_eq!(reply.status, 200);
    assert_eq!(reply.body, "A process y was killed");

    let mut failed = OldKillResult::new();
    failed.set_error("EPERM".to_string());
    let reply = route.respond("y", &failed);
    assert_eq!(reply.status, 500);
    assert_eq!(reply.body, "Failed to kill a process y. Error: EPERM");
    let reply = route.respond("y", &OldKillResult::new());
    assert_eq!(reply.body, "Failed to kill a process y. Error: Unknown error");
}

#[test]
fn state_list_and_not_found_replies() {
    let list = GetStateList { data: data("GET", "/state-list", None) };
    let reply = list.respond("{\"a\":{}}".to_string());
    assert_eq!(reply.status, 200);
    assert_eq!(reply.body, "{\"a\":{}}");
    let missing = Route404 { data: data("GET", "/404", None) };
    let reply = missing.respond();
    assert_eq!(reply.status, 404);
    assert_eq!(reply.body, "404");
}

#[test]
fn replies_become_responses() {
    let reply = HttpReply { status: 404, body: "404".to_string() };
    let response = reply.prepare_response().unwrap();
    assert_eq!(response.status().as_u16(), 404);
    let body = response.into_body().collect().now_or_never().unwrap().unwrap().to_bytes();
    assert_eq!(&body[..], b"404");

    let reply = HttpReply { status: 200, body: "A process a was started, PID=1".to_string() };
    let response = reply.prepare_response().unwrap();
    assert_eq!(response.status().as_u16(), 200);
    let body = response.into_body().collect().now_or_never().unwrap().unwrap().to_bytes();
    assert_eq!(&body[..], b"A process a was started, PID=1");
}

#[test]
fn responses_need_a_status_from_100_to_999() {
    for status in [0u16, 1, 99, 1000, 65535] {
        let reply = HttpReply { status, body: String::new() };
        assert!(reply.prepare_response().is_err(), "{}", status);
    }
    for status in [100u16, 200, 404, 500, 599, 600, 999] {
        let reply = HttpReply { status, body: String::new() };
        let response = reply.prepare_response().unwrap();
        assert_eq!(response.status().as_u16(), status);
    }
}

#[test]
fn first_router_answers_by_exact_method_and_path() {
    let route_data = |method: &str, path: &str| process_supervisor::server::router::RouteData {
        method: method.to_string(),
        path: path.to_string(),
    };
    let router = process_supervisor::server::router::Router::new(vec![
        process_supervisor::server::router::Handlable::Run(
            process_supervisor::server::router::RunRoute { data: route_data("GET", "/run") },
        ),
        process_supervisor::server::router::Handlable::Kill(
            process_supervisor::server::router::KillRoute { data: route_data("POST", "/kill") },
        ),
    ]);
    let reply = router.handle_request("GET", "/run", String::new());
    assert_eq!((reply.status, reply.body.as_str()), (200, "A process is running."));
    let reply = router.handle_request("POST", "/kill", "ignored".to_string());
    assert_eq!((reply.status, reply.body.as_str()), (200, "OK"));
    for (method, path) in [("GET", "/kill"), ("POST", "/run"), ("GET", "/run/"), ("GET", "run"), ("GET", "/404")] {
        let reply = router.handle_request(method, path, String::new());
        assert_eq!((reply.status, reply.body.as_str()), (404, "404"), "{} {}", method, path);
    }
    let found = router.route("POST", "/kill");
    assert_eq!((found.method(), found.path()), ("POST", "/kill"));
    let fallback = router.route("PUT", "/kill");
    assert_eq!((fallback.method(), fallback.path()), ("GET", "/404"));
    let empty = process_supervisor::server::router::Router::new(Vec::new());
    assert_eq!(empty.handle_request("GET", "/run", String::new()).status, 404);
}
