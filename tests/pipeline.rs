use rusty_shorty::cache_local::CacheLocal;
use rusty_shorty::context::{Config, Context, PoemConfig, RequestParts, SqliteConfig};
use rusty_shorty::errors::{ContextError, UserRepositoryError};
use rusty_shorty::gate::{
    must_be_root, must_be_user, redirect_if_visitor, redirect_if_visitor_in, visitor_only, GateError,
};
use rusty_shorty::identity::UserIdContext;
use rusty_shorty::role::Role;
use rusty_shorty::user_service::{UserCheckService, UserLoginService};
use std::cell::Cell;
use std::sync::Arc;

fn config() -> Arc<Config> {
    Arc::new(Config {
        poem_public: PoemConfig { address: "127.0.0.1".to_string(), port: 8000 },
        poem_backoffice: PoemConfig { address: "127.0.0.1".to_string(), port: 8001 },
        sqlite: SqliteConfig { path: "shorty.db".to_string() },
    })
}

fn identity(role: Role) -> UserIdContext {
    UserIdContext { id: 7, username: "alice".to_string(), role }
}

fn request(token: Option<&str>) -> RequestParts {
    RequestParts { path: "/shorty/".to_string(), token_cookie: token.map(|t| t.to_string()) }
}

#[test]
fn cache_builds_once_for_many_resolutions() {
    let builds = Cell::new(0u32);
    let mut cell: CacheLocal<String> = CacheLocal::new();
    let mut seen = Vec::new();
    for _ in 0..5 {
        let r: Result<String, ()> = cell.get_or_try_init(|| {
            builds.set(builds.get() + 1);
            Ok("built".to_string())
        });
        seen.push(r.unwrap());
    }
    assert_eq!(builds.get(), 1);
    assert!(seen.iter().all(|s| s == "built"));
    assert_eq!(cell.get().map(|s| s.as_str()), Some("built"));
}

#[test]
fn cache_does_not_keep_a_failure() {
    let builds = Cell::new(0u32);
    let mut cell: CacheLocal<u32> = CacheLocal::new();
    let first: Result<u32, &str> = cell.get_or_try_init(|| {
        builds.set(builds.get() + 1);
        Err("database down")
    });
    assert_eq!(first, Err("database down"));
    assert!(cell.get().is_none());
    let second: Result<u32, &str> = cell.get_or_try_init(|| {
        builds.set(builds.get() + 1);
        Ok(42)
    });
    assert_eq!(second, Ok(42));
    assert_eq!(builds.get(), 2);
}

#[test]
fn requests_do_not_share_cached_identity() {
    let lookups = Cell::new(0u32);
    let mut a = Context::from_request(request(Some("tok")), Some(config())).unwrap();
    let mut b = Context::from_request(request(Some("tok")), Some(config())).unwrap();
    let ua = UserIdContext::from_context(&mut a, |_t: String| {
        lookups.set(lookups.get() + 1);
        Ok(identity(Role::Root))
    })
    .unwrap();
    assert_eq!(ua.role, Role::Root);
    assert!(b.cache.user_id_context.get().is_none());
    let ub = UserIdContext::from_context(&mut b, |_t: String| {
        lookups.set(lookups.get() + 1);
        Err(UserRepositoryError::NotFoundError)
    })
    .unwrap();
    assert_eq!(ub.role, Role::Visitor);
    assert_eq!(lookups.get(), 2);
}

#[test]
fn missing_config_fails_extraction() {
    let r = Context::from_request(request(None), None);
    assert!(matches!(r, Err(ContextError::ConfigError)));
}

#[test]
fn identity_outside_request_is_request_error() {
    let mut ctx = Context::without_request(config());
    let r = UserIdContext::from_context(&mut ctx, |_t: String| Ok(identity(Role::Root)));
    assert!(matches!(r, Err(ContextError::RequestError)));
}

#[test]
fn user_gate_outcomes() {
    let gate = must_be_user("page");
    let visitor = UserIdContext::visitor();
    match gate.call(&visitor, |p: &&str| p.len()) {
        Err(GateError::SeeOther(loc)) => assert_eq!(loc, "/login/"),
        _ => panic!("expected a redirect"),
    }
    assert_eq!(gate.call(&identity(Role::User), |p: &&str| p.to_string()).unwrap(), "page");
    assert_eq!(gate.call(&identity(Role::Root), |p: &&str| p.to_string()).unwrap(), "page");
}

#[test]
fn root_gate_outcomes() {
    let gate = must_be_root(5u32);
    let r = gate.call(&identity(Role::User), |n: &u32| *n * 2);
    assert!(matches!(r, Err(GateError::Unauthorized)));
    assert_eq!(r.unwrap_err().status(), 401);
    assert_eq!(gate.call(&identity(Role::Root), |n: &u32| *n * 2).unwrap(), 10);
}

#[test]
fn visitor_only_gate_outcomes() {
    let gate = visitor_only("login form");
    for role in [Role::User, Role::Root] {
        let r = gate.call(&identity(role), |p: &&str| p.to_string());
        assert!(matches!(r, Err(GateError::Forbidden)));
    }
    let ok = gate.call(&UserIdContext::visitor(), |p: &&str| p.to_string()).unwrap();
    assert_eq!(ok, "login form");
}

#[test]
fn anonymous_request_to_user_route_redirects_without_running_handler() {
    let handler_runs = Cell::new(0u32);
    let mut ctx = Context::from_request(request(None), Some(config())).unwrap();
    let gate = must_be_user(());
    let r = gate.call_in(
        &mut ctx,
        |_t: String| Ok(identity(Role::Root)),
        |_e: &()| {
            handler_runs.set(handler_runs.get() + 1);
            "secret"
        },
    );
    match r {
        Err(GateError::SeeOther(loc)) => assert_eq!(loc, "/login/"),
        _ => panic!("expected a redirect"),
    }
    assert_eq!(handler_runs.get(), 0);
    let who = ctx.cache.user_id_context.get().unwrap();
    assert_eq!(who.role, Role::Visitor);
    assert_eq!(who.id, 0);
    assert_eq!(who.username, "visitor");
}

#[test]
fn root_request_reaches_root_route_and_identity_is_built_once() {
    let lookups = Cell::new(0u32);
    let mut ctx = Context::from_request(request(Some("root-token")), Some(config())).unwrap();
    let gate = must_be_root("dashboard");
    let out = gate
        .call_in(
            &mut ctx,
            |t: String| {
                assert_eq!(t, "root-token");
                lookups.set(lookups.get() + 1);
                Ok(UserIdContext { id: 1, username: "admin".to_string(), role: Role::Root })
            },
            |p: &&str| format!("<h1>{}</h1>", p),
        )
        .unwrap();
    assert_eq!(out, "<h1>dashboard</h1>");
    let again = UserIdContext::from_context(&mut ctx, |_t: String| {
        lookups.set(lookups.get() + 1);
        Ok(identity(Role::Visitor))
    })
    .unwrap();
    assert_eq!(again.username, "admin");
    assert_eq!(again.role, Role::Root);
    assert_eq!(lookups.get(), 1);
}

#[test]
fn sign_in_check_lets_login_pages_through() {
    let visitor = UserIdContext::visitor();
    assert!(redirect_if_visitor("/login/", &visitor).is_ok());
    assert!(redirect_if_visitor("/login/logout", &visitor).is_ok());
    match redirect_if_visitor("/user/", &visitor) {
        Err(GateError::SeeOther(loc)) => assert_eq!(loc, "/login"),
        _ => panic!("expected a redirect"),
    }
    assert!(redirect_if_visitor("/user/", &identity(Role::User)).is_ok());
}

#[test]
fn user_check_service_resolution() {
    let none = UserCheckService::new(None);
    let u = none.get_user_context(|_t: String| -> Result<UserIdContext, UserRepositoryError> {
        panic!("no lookup without a token")
    });
    assert_eq!(u.role, Role::Visitor);
    let some = UserCheckService::new(Some("t".to_string()));
    let u = some.get_user_context(|_t: String| Ok(identity(Role::User)));
    assert_eq!(u.username, "alice");
    let u = some.get_user_context(|_t: String| Err(UserRepositoryError::QueryError));
    assert_eq!(u.username, "visitor");
}

#[test]
fn logout_needs_a_token_and_a_removal() {
    assert!(!UserLoginService::new(None).logout(|_t: String| Ok(())));
    let s = UserLoginService::new(Some("t".to_string()));
    assert!(s.logout(|t: String| if t == "t" { Ok(()) } else { Err(UserRepositoryError::QueryError) }));
    assert!(!s.logout(|_t: String| Err(UserRepositoryError::LockError)));
}

#[test]
fn extraction_with_config_gives_empty_cache() {
    let ctx = Context::from_request(request(Some("t")), Some(config())).unwrap();
    assert!(ctx.cache.user_id_context.get().is_none());
    assert_eq!(ctx.req.unwrap().token_cookie.as_deref(), Some("t"));
}

#[test]
fn gate_without_request_is_resolution_error() {
    let runs = Cell::new(0u32);
    let mut ctx = Context::without_request(config());
    let r = must_be_user(()).call_in(
        &mut ctx,
        |_t: String| Ok(identity(Role::Root)),
        |_e: &()| runs.set(runs.get() + 1),
    );
    assert!(matches!(r, Err(GateError::Resolution(ContextError::RequestError))));
    assert_eq!(runs.get(), 0);
}

#[test]
fn visitor_only_gate_resolves_the_caller() {
    let gate = visitor_only("login form");
    let mut signed_in = Context::from_request(request(Some("t")), Some(config())).unwrap();
    let r = gate.call_in(&mut signed_in, |_t: String| Ok(identity(Role::User)), |p: &&str| p.len());
    assert!(matches!(r, Err(GateError::Forbidden)));
    let mut anonymous = Context::from_request(request(None), Some(config())).unwrap();
    let ok = gate.call_in(&mut anonymous, |_t: String| Ok(identity(Role::User)), |p: &&str| p.len());
    assert_eq!(ok.unwrap(), 10);
    let mut outside = Context::without_request(config());
    let r = gate.call_in(&mut outside, |_t: String| Ok(identity(Role::User)), |p: &&str| p.len());
    assert!(matches!(r, Err(GateError::Resolution(ContextError::RequestError))));
}

#[test]
fn sign_in_check_skips_lookup_on_login_pages() {
    let lookups = Cell::new(0u32);
    let login = RequestParts { path: "/login/".to_string(), token_cookie: None };
    let mut ctx = Context::from_request(login, Some(config())).unwrap();
    let r = redirect_if_visitor_in(&mut ctx, |_t: String| {
        lookups.set(lookups.get() + 1);
        Ok(identity(Role::User))
    });
    assert!(r.is_ok());
    assert!(ctx.cache.user_id_context.get().is_none());
    let mut anonymous = Context::from_request(request(None), Some(config())).unwrap();
    match redirect_if_visitor_in(&mut anonymous, |_t: String| Ok(identity(Role::User))) {
        Err(GateError::SeeOther(loc)) => assert_eq!(loc, "/login"),
        _ => panic!("expected a redirect"),
    }
    let mut user = Context::from_request(request(Some("t")), Some(config())).unwrap();
    let r = redirect_if_visitor_in(&mut user, |_t: String| {
        lookups.set(lookups.get() + 1);
        Ok(identity(Role::User))
    });
    assert!(r.is_ok());
    assert_eq!(lookups.get(), 1);
    let mut outside = Context::without_request(config());
    let r = redirect_if_visitor_in(&mut outside, |_t: String| Ok(identity(Role::User)));
    assert!(matches!(r, Err(GateError::Resolution(ContextError::RequestError))));
}
