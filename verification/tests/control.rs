use sumplayer::control_server::{
    fix_quotes, get_param, get_param_bool, get_param_u32, is_local_address, lookup_param,
    parse_query_string, parse_route, parse_u32, request_path, storage_object, BodyField,
    ControlServer, Route,
};

fn sorted(mut v: Vec<(String, String)>) -> Vec<(String, String)> {
    v.sort();
    v
}

fn p(k: &str, v: &str) -> (String, String) {
    (k.to_string(), v.to_string())
}

#[test]
fn running_flag() {
    let mut s = ControlServer::new();
    assert!(!s.is_running());
    assert!(s.record_bind(true));
    assert!(s.is_running());
    s.stop();
    assert!(!s.is_running());
    assert!(!s.record_bind(false));
    assert!(!s.is_running());
}

#[test]
fn only_loopback_callers() {
    assert!(is_local_address("127.0.0.1:5123"));
    assert!(is_local_address("[::1]:80"));
    assert!(!is_local_address("192.168.0.2:80"));
    assert!(!is_local_address(""));
}

#[test]
fn path_and_route() {
    assert_eq!(request_path("/tab/create?url=x"), "/tab/create");
    assert_eq!(request_path("/status"), "/status");
    assert_eq!(parse_route("/status"), Route::Status);
    assert_eq!(parse_route("/tab/move"), Route::TabMove);
    assert_eq!(parse_route("/page/screenshot"), Route::PageScreenshot);
    assert_eq!(parse_route("/page/screenshot/full"), Route::PageScreenshot);
    assert_eq!(parse_route("/screenshot/save"), Route::ScreenshotSave);
    assert_eq!(parse_route("/nope"), Route::Unknown);
    assert_eq!(parse_route("/status/"), Route::Unknown);
}

#[test]
fn query_string_parameters() {
    assert!(parse_query_string("/x").is_empty());
    assert_eq!(
        sorted(parse_query_string("/x?a=1&b=two%20words&c&a=3")),
        vec![p("a", "3"), p("b", "two words")]
    );
    assert_eq!(sorted(parse_query_string("/x?k=v=w")), vec![p("k", "v=w")]);
    assert_eq!(sorted(parse_query_string("/x?a=1?b=2")), vec![p("a", "1")]);
    assert_eq!(sorted(parse_query_string("/x?%41=%zz&bad=%FF")), vec![p("A", "%zz"), p("bad", "")]);
    assert_eq!(sorted(parse_query_string("/x?=v&")), vec![p("", "v")]);
}

#[test]
fn parameters_prefer_body() {
    let params = parse_query_string("/x?url=from-query&id=12&n=abc");
    assert_eq!(lookup_param(&params, "url"), Some("from-query".to_string()));
    assert_eq!(get_param(&BodyField::Text("from-body".into()), &params, "url"), Some("from-body".into()));
    assert_eq!(get_param(&BodyField::Missing, &params, "url"), Some("from-query".into()));
    assert_eq!(get_param(&BodyField::Unsigned(3), &params, "zzz"), None);
    assert_eq!(get_param_u32(&BodyField::Unsigned(7), &params, "id"), Some(7));
    assert_eq!(get_param_u32(&BodyField::Unsigned(4294967297), &params, "id"), Some(1));
    assert_eq!(get_param_u32(&BodyField::Text("+9".into()), &params, "id"), Some(9));
    assert_eq!(get_param_u32(&BodyField::Text("x".into()), &params, "id"), Some(12));
    assert_eq!(get_param_u32(&BodyField::Other, &params, "n"), None);
    assert_eq!(get_param_u32(&BodyField::Missing, &params, "none"), None);
    assert!(get_param_bool(&BodyField::Flag(false), true) == false);
    assert!(get_param_bool(&BodyField::Text("true".into()), true));
}

#[test]
fn u32_parsing_like_std() {
    for s in ["0", "42", "+42", "0007", "4294967295", "4294967296", "", "+", "-1", "1a", " 1", "99999999999999999999"] {
        assert_eq!(parse_u32(s), s.parse::<u32>().ok(), "{}", s);
    }
}

#[test]
fn storage_and_quotes() {
    assert_eq!(storage_object(Some("session".into())), "sessionStorage");
    assert_eq!(storage_object(Some("local".into())), "localStorage");
    assert_eq!(storage_object(None), "localStorage");
    assert_eq!(fix_quotes("{'a': 'b'}"), "{\"a\": \"b\"}");
}
