use vstd::prelude::*;
use vstd::string::StringExecFns;
use crate::context::{Context, RequestParts};
use crate::errors::{ContextError, UserRepositoryError};
use crate::identity::UserIdContext;
use crate::user_service::{identity_resolution, outcome_of};
use crate::role::{rank, Role};
use crate::text::{contains_text, has_infix};

verus! {

/// Where the login pages are mounted.
pub const LOGIN_ROUTE: &'static str = "/login";

/// The characters of `LOGIN_ROUTE`.
pub open spec fn login_path() -> Seq<char> {
    seq!['/', 'l', 'o', 'g', 'i', 'n']
}

/// Why a gated request did not reach its handler.
#[derive(Debug)]
pub enum GateError {
    /// Send the caller to this location (to sign in).
    SeeOther(String),
    /// The caller is signed in but ranks too low.
    Unauthorized,
    /// The caller is signed in and the page is for anonymous visitors.
    Forbidden,
    /// The caller's identity could not be resolved.
    Resolution(ContextError),
}

/// The HTTP status a gate outcome is answered with.
pub open spec fn gate_status(e: GateError) -> u16 {
    match e {
        GateError::SeeOther(_) => 303,
        GateError::Unauthorized => 401,
        GateError::Forbidden => 403,
        GateError::Resolution(_) => 500,
    }
}

impl GateError {
    pub fn status(&self) -> (r: u16)
        ensures
            r == gate_status(*self),
    {
        match self {
            GateError::SeeOther(_) => 303,
            GateError::Unauthorized => 401,
            GateError::Forbidden => 403,
            GateError::Resolution(_) => 500,
        }
    }
}

/// Whether a gated call went through, forgetting the handler's output.
pub open spec fn passed<O>(r: Result<O, GateError>) -> Result<(), GateError> {
    match r {
        Ok(_) => Ok(()),
        Err(e) => Err(e),
    }
}

/// `r` is the outcome of a gate requiring at least `required` for a caller
/// at level `caller`: anonymous callers are sent to sign in, callers ranking
/// below the threshold are refused, the others pass.
pub open spec fn role_gate(required: Role, caller: Role, r: Result<(), GateError>) -> bool {
    if caller == Role::Visitor {
        r matches Err(GateError::SeeOther(loc)) && loc@ == login_path().push('/')
    } else if rank(caller) < rank(required) {
        r matches Err(GateError::Unauthorized)
    } else {
        r is Ok
    }
}

/// `r` is the outcome of a gate for anonymous visitors only, for a caller
/// at level `caller`.
pub open spec fn visitor_gate(caller: Role, r: Result<(), GateError>) -> bool {
    if caller == Role::Visitor {
        r is Ok
    } else {
        r matches Err(GateError::Forbidden)
    }
}

/// The location of the login form.
fn login_location() -> (r: String)
    ensures
        r@ == login_path().push('/'),
{
    proof {
        reveal_strlit("/login");
        reveal_strlit("/");
        assert(LOGIN_ROUTE@ =~= login_path());
    }
    let base = LOGIN_ROUTE.to_owned();
    let r = base.concat("/");
    assert(r@ =~= login_path().push('/'));
    r
}

/// A handler reachable only by callers ranking at least `required`.
pub struct UserRoleCheck<E> {
    pub required: Role,
    pub endpoint: E,
}

/// Wraps `endpoint` so that only signed-in users reach it.
pub fn must_be_user<E>(endpoint: E) -> (r: UserRoleCheck<E>)
    ensures
        r.required == Role::User,
        r.endpoint == endpoint,
{
    UserRoleCheck { required: Role::User, endpoint }
}

/// Wraps `endpoint` so that only root users reach it.
pub fn must_be_root<E>(endpoint: E) -> (r: UserRoleCheck<E>)
    ensures
        r.required == Role::Root,
        r.endpoint == endpoint,
{
    UserRoleCheck { required: Role::Root, endpoint }
}

impl<E> UserRoleCheck<E> {
    /// Whether `identity` may pass.
    pub fn check(&self, identity: &UserIdContext) -> (r: Result<(), GateError>)
        ensures
            role_gate(self.required, identity.role, r),
    {
        if identity.role == Role::Visitor {
            return Err(GateError::SeeOther(login_location()));
        }
        if identity.role < self.required {
            return Err(GateError::Unauthorized);
        }
        Ok(())
    }

    /// Runs `handler` on the wrapped endpoint when `identity` may pass, and
    /// hands its output back unchanged; otherwise the handler does not run.
    pub fn call<O, H>(&self, identity: &UserIdContext, handler: H) -> (r: Result<O, GateError>) where
        H: FnOnce(&E) -> O,

        requires
            handler.requires((&self.endpoint,)),
        ensures
            r matches Ok(o) ==> handler.ensures((&self.endpoint,), o),
            role_gate(self.required, identity.role, passed(r)),
    {
        match self.check(identity) {
            Err(e) => Err(e),
            Ok(()) => Ok(handler(&self.endpoint)),
        }
    }

    /// Resolves the caller of `ctx`'s request (from the request's cache when
    /// it was resolved before), then gates `handler` on it as `call` does.
    pub fn call_in<O, F, H>(&self, ctx: &mut Context, find_by_token: F, handler: H) -> (r: Result<
        O,
        GateError,
    >) where
        F: FnOnce(String) -> Result<UserIdContext, UserRepositoryError>,
        H: FnOnce(&E) -> O,

        requires
            old(ctx).cache.user_id_context@ is None ==> forall|t: String|
                find_by_token.requires((t,)),
            handler.requires((&self.endpoint,)),
        ensures
            final(ctx).req == old(ctx).req,
            final(ctx).config == old(ctx).config,
            identity_resolution(
                old(ctx).cache.user_id_context@,
                old(ctx).req,
                find_by_token,
                outcome_of(final(ctx).cache.user_id_context@),
                final(ctx).cache.user_id_context@,
            ),
            final(ctx).cache.user_id_context@ is None ==> r matches Err(
                GateError::Resolution(ContextError::RequestError),
            ),
            r matches Ok(o) ==> handler.ensures((&self.endpoint,), o),
            final(ctx).cache.user_id_context@ is Some ==> role_gate(
                self.required,
                final(ctx).cache.user_id_context@->Some_0.role,
                passed(r),
            ),
    {
        match UserIdContext::from_context(ctx, find_by_token) {
            Err(e) => Err(GateError::Resolution(e)),
            Ok(identity) => self.call(&identity, handler),
        }
    }
}

/// A handler reachable only by anonymous visitors.
pub struct VisitorOnly<E> {
    pub endpoint: E,
}

/// Wraps `endpoint` so that signed-in callers are refused.
pub fn visitor_only<E>(endpoint: E) -> (r: VisitorOnly<E>)
    ensures
        r.endpoint == endpoint,
{
    VisitorOnly { endpoint }
}

impl<E> VisitorOnly<E> {
    /// Whether `identity` may pass.
    pub fn check(&self, identity: &UserIdContext) -> (r: Result<(), GateError>)
        ensures
            visitor_gate(identity.role, r),
    {
        if identity.role != Role::Visitor {
            return Err(GateError::Forbidden);
        }
        Ok(())
    }

    /// Runs `handler` on the wrapped endpoint when `identity` is anonymous,
    /// and hands its output back unchanged; otherwise the handler does not run.
    pub fn call<O, H>(&self, identity: &UserIdContext, handler: H) -> (r: Result<O, GateError>) where
        H: FnOnce(&E) -> O,

        requires
            handler.requires((&self.endpoint,)),
        ensures
            r matches Ok(o) ==> handler.ensures((&self.endpoint,), o),
            visitor_gate(identity.role, passed(r)),
    {
        match self.check(identity) {
            Err(e) => Err(e),
            Ok(()) => Ok(handler(&self.endpoint)),
        }
    }

    /// Resolves the caller of `ctx`'s request (from the request's cache when
    /// it was resolved before), then gates `handler` on it as `call` does;
    /// a failed resolution stops the request before the handler.
    pub fn call_in<O, F, H>(&self, ctx: &mut Context, find_by_token: F, handler: H) -> (r: Result<
        O,
        GateError,
    >) where
        F: FnOnce(String) -> Result<UserIdContext, UserRepositoryError>,
        H: FnOnce(&E) -> O,

        requires
            old(ctx).cache.user_id_context@ is None ==> forall|t: String|
                find_by_token.requires((t,)),
            handler.requires((&self.endpoint,)),
        ensures
            final(ctx).req == old(ctx).req,
            final(ctx).config == old(ctx).config,
            identity_resolution(
                old(ctx).cache.user_id_context@,
                old(ctx).req,
                find_by_token,
                outcome_of(final(ctx).cache.user_id_context@),
                final(ctx).cache.user_id_context@,
            ),
            final(ctx).cache.user_id_context@ is None ==> r matches Err(
                GateError::Resolution(ContextError::RequestError),
            ),
            r matches Ok(o) ==> handler.ensures((&self.endpoint,), o),
            final(ctx).cache.user_id_context@ is Some ==> visitor_gate(
                final(ctx).cache.user_id_context@->Some_0.role,
                passed(r),
            ),
    {
        match UserIdContext::from_context(ctx, find_by_token) {
            Err(e) => Err(GateError::Resolution(e)),
            Ok(identity) => self.call(&identity, handler),
        }
    }
}

/// `r` is the outcome of the site-wide sign-in check for a request to
/// `path` by a caller at level `caller`: the login pages are always open,
/// elsewhere anonymous callers are sent to sign in.
pub open spec fn sign_in_gate(path: Seq<char>, caller: Role, r: Result<(), GateError>) -> bool {
    if has_infix(path, login_path()) {
        r is Ok
    } else if caller == Role::Visitor {
        r matches Err(GateError::SeeOther(loc)) && loc@ == login_path()
    } else {
        r is Ok
    }
}

/// The site-wide sign-in check for a request to `path`.
pub fn redirect_if_visitor(path: &str, identity: &UserIdContext) -> (r: Result<(), GateError>)
    ensures
        sign_in_gate(path@, identity.role, r),
{
    proof {
        reveal_strlit("/login");
        assert(LOGIN_ROUTE@ =~= login_path());
    }
    if contains_text(path, LOGIN_ROUTE) {
        return Ok(());
    }
    if identity.role == Role::Visitor {
        return Err(GateError::SeeOther(LOGIN_ROUTE.to_owned()));
    }
    Ok(())
}

/// The path of `req`; empty outside a request.
pub open spec fn request_path(req: Option<RequestParts>) -> Seq<char> {
    match req {
        Some(p) => p.path@,
        None => Seq::empty(),
    }
}

/// The site-wide sign-in check for the request of `ctx`. On the login
/// pages the request passes without resolving anyone; elsewhere the caller
/// is resolved (from the request's cache when it was resolved before) and
/// checked as `redirect_if_visitor` does.
pub fn redirect_if_visitor_in<F>(ctx: &mut Context, find_by_token: F) -> (r: Result<(), GateError>) where
    F: FnOnce(String) -> Result<UserIdContext, UserRepositoryError>,

    requires
        old(ctx).cache.user_id_context@ is None ==> forall|t: String| find_by_token.requires((t,)),
    ensures
        final(ctx).req == old(ctx).req,
        final(ctx).config == old(ctx).config,
        old(ctx).req matches Some(p) && has_infix(p.path@, login_path()) ==> {
            &&& r is Ok
            &&& final(ctx).cache.user_id_context@ == old(ctx).cache.user_id_context@
        },
        !(old(ctx).req matches Some(p) && has_infix(p.path@, login_path())) ==> {
            &&& identity_resolution(
                old(ctx).cache.user_id_context@,
                old(ctx).req,
                find_by_token,
                outcome_of(final(ctx).cache.user_id_context@),
                final(ctx).cache.user_id_context@,
            )
            &&& final(ctx).cache.user_id_context@ is None ==> (r matches Err(
                GateError::Resolution(ContextError::RequestError),
            ))
            &&& final(ctx).cache.user_id_context@ is Some ==> sign_in_gate(
                request_path(old(ctx).req),
                final(ctx).cache.user_id_context@->Some_0.role,
                r,
            )
        },
{
    proof {
        reveal_strlit("/login");
        reveal_strlit("");
        assert(LOGIN_ROUTE@ =~= login_path());
        assert(""@ =~= Seq::<char>::empty());
    }
    let on_login_page = match &ctx.req {
        Some(p) => contains_text(p.path.as_str(), LOGIN_ROUTE),
        None => false,
    };
    if on_login_page {
        return Ok(());
    }
    match UserIdContext::from_context(ctx, find_by_token) {
        Err(e) => Err(GateError::Resolution(e)),
        Ok(identity) => match &ctx.req {
            Some(p) => redirect_if_visitor(p.path.as_str(), &identity),
            None => redirect_if_visitor("", &identity),
        },
    }
}

} // verus!
