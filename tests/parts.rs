use rusty_shorty::csrf::{CsrfError, CsrfHeaderChecker};
use rusty_shorty::embed::{enforce_min_js_on_prod, min_js_path, EmbedAsString};
use rusty_shorty::htmx::{HtmxResponse, HtmxResponseExt};
use rusty_shorty::role::Role;

#[test]
fn role_levels_and_order() {
    assert_eq!(Role::Root.level(), 2);
    assert_eq!(Role::User.level(), 1);
    assert_eq!(Role::Visitor.level(), 0);
    assert!(Role::Visitor < Role::User);
    assert!(Role::User < Role::Root);
    assert_eq!(Role::all_roles(), vec![Role::Root, Role::User, Role::Visitor]);
}

#[test]
fn role_names_round_trip() {
    for r in Role::all_roles() {
        assert_eq!(Role::parse(&r.name()), Some(r));
    }
    assert_eq!(Role::parse("admin"), None);
    assert_eq!(Role::User.name(), "user");
}

#[test]
fn htmx_headers_in_order() {
    let h = "body"
        .htmx_response()
        .trigger("saved")
        .refresh()
        .location("/next");
    let headers = h.headers();
    assert_eq!(
        headers,
        vec![
            ("HX-Location".to_string(), "/next".to_string()),
            ("HX-Refresh".to_string(), "true".to_string()),
            ("HX-Trigger".to_string(), "saved".to_string()),
        ]
    );
    assert_eq!(h.response, "body");
    assert!(HtmxResponse::new(()).headers().is_empty());
}

#[test]
fn htmx_every_header() {
    let h = HtmxResponse::new(0u8)
        .push_url("/p")
        .redirect("/r")
        .replace_url("/u")
        .reswap("outerHTML")
        .retarget("#t")
        .reselect("#s")
        .trigger_after_settle("a")
        .trigger_after_swap("b");
    let names: Vec<String> = h.headers().into_iter().map(|(n, _)| n).collect();
    assert_eq!(
        names,
        vec![
            "HX-Push-Url",
            "HX-Redirect",
            "HX-Replace-Url",
            "HX-Reswap",
            "HX-Retarget",
            "HX-Reselect",
            "HX-Trigger-After-Settle",
            "HX-Trigger-After-Swap"
        ]
    );
}

#[test]
fn csrf_header_check() {
    assert_eq!(CsrfHeaderChecker::from_request(None, Some(|_t: String| true)), Err(CsrfError));
    assert_eq!(
        CsrfHeaderChecker::from_request(Some("x".to_string()), None::<fn(String) -> bool>),
        Ok(CsrfHeaderChecker)
    );
    assert_eq!(
        CsrfHeaderChecker::from_request(Some("x".to_string()), Some(|t: String| t == "x")),
        Ok(CsrfHeaderChecker)
    );
    assert_eq!(
        CsrfHeaderChecker::from_request(Some("y".to_string()), Some(|t: String| t == "x")),
        Err(CsrfError)
    );
    assert_eq!(CsrfError.status(), 403);
}

#[test]
fn min_js_rewrites_in_production_only() {
    let prod = enforce_min_js_on_prod((), false);
    assert_eq!(prod.rewrite("/js/app.js", "v=1"), Some("/js/app.min.js?v=1".to_string()));
    assert_eq!(prod.rewrite("/js/APP.JS", ""), Some("/js/APP.MIN.JS?".to_string()));
    assert_eq!(prod.rewrite("/js/app.Js", ""), Some("/js/app.Js?".to_string()));
    assert_eq!(prod.rewrite("/js/app.min.js", ""), None);
    assert_eq!(prod.rewrite("/js/app.MIN.JS", ""), None);
    assert_eq!(prod.rewrite("/css/app.js", ""), None);
    assert_eq!(prod.rewrite("/js/app.css", ""), None);
    let debug = enforce_min_js_on_prod((), true);
    assert_eq!(debug.rewrite("/js/app.js", ""), None);
}

#[test]
fn min_js_path_uses_given_lowercase() {
    assert_eq!(min_js_path("/js/a.JS", "/js/a.js", "q", false), Some("/js/a.MIN.JS?q".to_string()));
    assert_eq!(min_js_path("/js/a.JS", "/js/a.JS", "q", false), None);
}

#[test]
fn embedded_text() {
    assert_eq!(Some(b"hello".to_vec()).as_string(), "hello");
    assert_eq!(Some(vec![0xff, 0xfe]).as_string(), "");
    assert_eq!(None::<Vec<u8>>.as_string(), "");
}
