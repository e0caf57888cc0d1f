use sumplayer::control_server::{
    plan_request, BodyField, ControlServer, RequestPlan, Route, StartStep,
};
use sumplayer::routes::{plan_route, route_reply, RouteAction};

fn q(pairs: &[(&str, &str)]) -> Vec<(String, String)> {
    pairs.iter().map(|(k, v)| (k.to_string(), v.to_string())).collect()
}

fn b(pairs: Vec<(&str, BodyField)>) -> Vec<(String, BodyField)> {
    pairs.into_iter().map(|(k, v)| (k.to_string(), v)).collect()
}

#[test]
fn starting_twice_binds_once() {
    let mut s = ControlServer::new();
    assert_eq!(s.begin_start(), StartStep::Bind);
    assert!(s.record_bind(true));
    assert_eq!(s.begin_start(), StartStep::AlreadyServing);
    s.stop();
    assert_eq!(s.begin_start(), StartStep::Bind);
}

#[test]
fn foreign_callers_are_refused() {
    match plan_request("10.0.0.5:5000", "/status") {
        RequestPlan::Forbidden { status, body } => {
            assert_eq!(status, 403);
            assert_eq!(body, r#"{"error":"Forbidden"}"#);
        }
        other => panic!("{:?}", other),
    }
    match plan_request("127.0.0.1:5000", "/tab/close?id=3&x=a%20b") {
        RequestPlan::Dispatch { path, query } => {
            assert_eq!(path, "/tab/close");
            assert!(query.contains(&("id".to_string(), "3".to_string())));
            assert!(query.contains(&("x".to_string(), "a b".to_string())));
        }
        other => panic!("{:?}", other),
    }
    assert!(matches!(plan_request("[::1]:80", "/"), RequestPlan::Dispatch { .. }));
}

#[test]
fn click_needs_an_index_or_a_selector() {
    let none = plan_route(Route::PageClick, &vec![], &vec![], "/page/click");
    assert_eq!(none, RouteAction::Reply { body: r#"{"error":"Provide index or selector"}"#.to_string() });
    let by_index = plan_route(Route::PageClick, &b(vec![("index", BodyField::Unsigned(2))]), &vec![], "/page/click");
    match by_index {
        RouteAction::RunScript { script } => assert!(script.contains("window.__inspectedElements[2]")),
        other => panic!("{:?}", other),
    }
}

#[test]
fn parameters_fall_back_to_the_query_and_defaults() {
    assert_eq!(
        plan_route(Route::TabClose, &vec![], &q(&[("id", "7")]), "/tab/close"),
        RouteAction::CloseTab { id: 7 }
    );
    assert_eq!(plan_route(Route::TabClose, &vec![], &vec![], "/tab/close"), RouteAction::CloseTab { id: 0 });
    assert_eq!(
        plan_route(Route::TabMove, &b(vec![("tabId", BodyField::Text("4".to_string()))]), &vec![], "/tab/move"),
        RouteAction::MoveTab { tab_id: 4, before: None }
    );
    assert_eq!(
        plan_route(Route::HistorySearch, &vec![], &q(&[("q", "rust")]), "/history/search"),
        RouteAction::SearchHistory { query: "rust".to_string() }
    );
    assert_eq!(
        plan_route(Route::PageScroll, &b(vec![("direction", BodyField::Text("up".to_string()))]), &vec![], "/page/scroll"),
        RouteAction::ScrollBy { up: true }
    );
    assert_eq!(plan_route(Route::Find, &vec![], &vec![], "/find"), RouteAction::StopFind);
    assert_eq!(
        plan_route(Route::PageSubmit, &vec![], &vec![], "/page/submit"),
        RouteAction::SubmitForm { form_selector: "form".to_string(), submit: true }
    );
    assert_eq!(
        plan_route(Route::PageCdpEval, &vec![], &vec![], "/page/cdp-eval"),
        RouteAction::Reply { body: r#"{"error":"No code provided"}"#.to_string() }
    );
}

#[test]
fn storage_and_cookie_scripts() {
    let get = plan_route(
        Route::StorageGet,
        &b(vec![("type", BodyField::Text("session".to_string())), ("key", BodyField::Text("k".to_string()))]),
        &vec![],
        "/storage/get",
    );
    assert_eq!(get, RouteAction::RunScript { script: r#"sessionStorage.getItem("k")"#.to_string() });
    let set = plan_route(Route::CookieSet, &b(vec![("name", BodyField::Text("a".to_string()))]), &q(&[("maxAge", "60")]), "/cookie/set");
    assert_eq!(
        set,
        RouteAction::RunScript { script: r#"document.cookie = "a" + '=' + "" + ';path=' + "/" + ';max-age=60'"#.to_string() }
    );
}

#[test]
fn unknown_routes_and_fixed_replies() {
    assert_eq!(
        plan_route(Route::Unknown, &vec![], &vec![], "/nope\""),
        RouteAction::Reply { body: r#"{"error":"Unknown route","path":"/nope\""}"#.to_string() }
    );
    assert_eq!(route_reply(Route::TabClose), Some(r#"{"ok":true}"#.to_string()));
    assert_eq!(
        route_reply(Route::ConsoleGet),
        Some(r#"{"ok":true,"note":"Logs retrieved via JS eval"}"#.to_string())
    );
    assert_eq!(route_reply(Route::Status), None);
}
