use vstd::prelude::*;
use crate::context::{Context, RequestParts};
use crate::errors::{ContextError, UserRepositoryError};
use crate::identity::{is_visitor_identity, UserIdContext};

verus! {

/// `u` is the identity of a caller whose request carries `token`, when the
/// store's lookup of that token answered `found` (not consulted without a
/// token): the stored identity, or the anonymous one when there is no token
/// or the lookup failed.
pub open spec fn resolved_identity(
    token: Option<String>,
    found: Result<UserIdContext, UserRepositoryError>,
    u: UserIdContext,
) -> bool {
    match token {
        None => is_visitor_identity(u),
        Some(_) => match found {
            Ok(v) => u == v,
            Err(_) => is_visitor_identity(u),
        },
    }
}

/// `r` is what one resolution of the caller's identity gives, and `after`
/// what the request's identity slot holds afterwards, when the slot held
/// `before`, the request is `req` and `find_by_token` is the store's lookup:
/// a filled slot is handed out as it is; without a request resolution fails
/// with `RequestError` and keeps nothing; otherwise it succeeds with the
/// identity the request's token resolves to, and keeps it.
pub open spec fn identity_resolution<F>(
    before: Option<UserIdContext>,
    req: Option<RequestParts>,
    find_by_token: F,
    r: Result<UserIdContext, ContextError>,
    after: Option<UserIdContext>,
) -> bool where F: FnOnce(String) -> Result<UserIdContext, UserRepositoryError> {
    match before {
        Some(u) => r == Ok::<UserIdContext, ContextError>(u) && after == before,
        None => match req {
            None => r == Err::<UserIdContext, ContextError>(ContextError::RequestError)
                && after is None,
            Some(p) => r matches Ok(u) && after == Some(u) && match p.token_cookie {
                None => is_visitor_identity(u),
                Some(t) => exists|found: Result<UserIdContext, UserRepositoryError>|
                    #[trigger] find_by_token.ensures((t,), found) && resolved_identity(
                        p.token_cookie,
                        found,
                        u,
                    ),
            },
        },
    }
}

/// The outcome of a resolution, read off the slot it left: a filled slot
/// means the identity it holds, an empty one the missing request.
pub open spec fn outcome_of(after: Option<UserIdContext>) -> Result<UserIdContext, ContextError> {
    match after {
        Some(u) => Ok(u),
        None => Err(ContextError::RequestError),
    }
}

/// Works out who the caller is from the request's login token.
pub struct UserCheckService {
    token_cookie: Option<String>,
}

impl View for UserCheckService {
    type V = Option<String>;

    closed spec fn view(&self) -> Option<String> {
        self.token_cookie
    }
}

impl UserCheckService {
    pub fn new(token_cookie: Option<String>) -> (r: UserCheckService)
        ensures
            r@ == token_cookie,
    {
        UserCheckService { token_cookie }
    }

    /// The service for the request of `ctx`; `RequestError` outside a request.
    pub fn from_context(ctx: &Context) -> (r: Result<UserCheckService, ContextError>)
        ensures
            ctx.req is None ==> r == Err::<UserCheckService, ContextError>(
                ContextError::RequestError,
            ),
            ctx.req matches Some(p) ==> r matches Ok(s) && s@ == p.token_cookie,
    {
        let token = ctx.token_cookie()?;
        Ok(UserCheckService::new(token))
    }

    /// The caller's identity. `find_by_token` is the store's lookup; it runs
    /// only when the request carries a token.
    pub fn get_user_context<F>(&self, find_by_token: F) -> (r: UserIdContext) where
        F: FnOnce(String) -> Result<UserIdContext, UserRepositoryError>,

        requires
            self@ is Some ==> find_by_token.requires((self@->Some_0,)),
        ensures
            self@ is None ==> is_visitor_identity(r),
            self@ matches Some(t) ==> exists|found: Result<UserIdContext, UserRepositoryError>|
                #[trigger] find_by_token.ensures((t,), found) && resolved_identity(self@, found, r),
    {
        match self.is_logged_in(find_by_token) {
            Some(u) => u,
            None => UserIdContext::visitor(),
        }
    }

    fn is_logged_in<F>(&self, find_by_token: F) -> (r: Option<UserIdContext>) where
        F: FnOnce(String) -> Result<UserIdContext, UserRepositoryError>,

        requires
            self@ is Some ==> find_by_token.requires((self@->Some_0,)),
        ensures
            self@ is None ==> r is None,
            self@ matches Some(t) ==> exists|found: Result<UserIdContext, UserRepositoryError>|
                #[trigger] find_by_token.ensures((t,), found) && r == found.ok(),
    {
        match &self.token_cookie {
            Some(token) => {
                let found = find_by_token(token.clone());
                found.ok()
            },
            None => None,
        }
    }
}

/// Resolutions of the caller within one request agree: when a run of
/// resolutions starts from an empty slot on a request, each leaving the
/// slot for the next, the first builds the identity and every later one
/// finds it kept, so the store is consulted at most by the first, and every
/// caller receives the same identity.
pub proof fn lemma_identity_built_once<F>(
    slots: Seq<Option<UserIdContext>>,
    req: Option<RequestParts>,
    finds: Seq<F>,
    results: Seq<Result<UserIdContext, ContextError>>,
) where F: FnOnce(String) -> Result<UserIdContext, UserRepositoryError>
    requires
        req is Some,
        results.len() >= 1,
        slots.len() == results.len() + 1,
        finds.len() == results.len(),
        slots[0] is None,
        forall|i: int|
            0 <= i < results.len() ==> identity_resolution(
                slots[i],
                req,
                #[trigger] finds[i],
                results[i],
                slots[i + 1],
            ),
    ensures
        forall|i: int| 1 <= i < slots.len() ==> #[trigger] slots[i] == slots[1] && slots[i] is Some,
        forall|i: int| 0 <= i < results.len() ==> #[trigger] results[i] == results[0],
        results[0] is Ok,
{
    lemma_slot_kept(slots, req, finds, results, 1);
    assert forall|i: int| 1 <= i < slots.len() implies #[trigger] slots[i] == slots[1]
        && slots[i] is Some by {
        lemma_slot_kept(slots, req, finds, results, i);
    }
    assert forall|i: int| 0 <= i < results.len() implies #[trigger] results[i] == results[0] by {
        assert(identity_resolution(slots[i], req, finds[i], results[i], slots[i + 1]));
        if i > 0 {
            lemma_slot_kept(slots, req, finds, results, i);
        }
    }
}

proof fn lemma_slot_kept<F>(
    slots: Seq<Option<UserIdContext>>,
    req: Option<RequestParts>,
    finds: Seq<F>,
    results: Seq<Result<UserIdContext, ContextError>>,
    i: int,
) where F: FnOnce(String) -> Result<UserIdContext, UserRepositoryError>
    requires
        req is Some,
        results.len() >= 1,
        slots.len() == results.len() + 1,
        finds.len() == results.len(),
        slots[0] is None,
        forall|k: int|
            0 <= k < results.len() ==> identity_resolution(
                slots[k],
                req,
                #[trigger] finds[k],
                results[k],
                slots[k + 1],
            ),
        1 <= i < slots.len(),
    ensures
        slots[i] == slots[1],
        slots[i] is Some,
        results[0] == Ok::<UserIdContext, ContextError>(slots[1]->Some_0),
    decreases i,
{
    assert(identity_resolution(slots[0], req, finds[0], results[0], slots[1]));
    if i > 1 {
        lemma_slot_kept(slots, req, finds, results, i - 1);
        assert(identity_resolution(slots[i - 1], req, finds[i - 1], results[i - 1], slots[i]));
    }
}

impl UserIdContext {
    /// The identity of the caller of `ctx`'s request, built at most once per
    /// request: a later resolution hands out the identity built first and
    /// does not consult the store again. A failure is not kept.
    pub fn from_context<F>(ctx: &mut Context, find_by_token: F) -> (r: Result<
        UserIdContext,
        ContextError,
    >) where F: FnOnce(String) -> Result<UserIdContext, UserRepositoryError>,

        requires
            old(ctx).cache.user_id_context@ is None ==> forall|t: String|
                find_by_token.requires((t,)),
        ensures
            final(ctx).req == old(ctx).req,
            final(ctx).config == old(ctx).config,
            identity_resolution(
                old(ctx).cache.user_id_context@,
                old(ctx).req,
                find_by_token,
                r,
                final(ctx).cache.user_id_context@,
            ),
            r == outcome_of(final(ctx).cache.user_id_context@),
    {
        let service = UserCheckService::from_context(ctx);
        let build = move || -> (b: Result<UserIdContext, ContextError>)
            requires
                service is Ok ==> forall|t: String| find_by_token.requires((t,)),
            ensures
                service matches Err(e) ==> b == Err::<UserIdContext, ContextError>(e),
                service matches Ok(s) ==> {
                    &&& b is Ok
                    &&& s@ is None ==> is_visitor_identity(b->Ok_0)
                    &&& s@ matches Some(t) ==> exists|
                        found: Result<UserIdContext, UserRepositoryError>,
                    | #[trigger] find_by_token.ensures((t,), found) && resolved_identity(
                        s@,
                        found,
                        b->Ok_0,
                    )
                },
            {
                match service {
                    Err(e) => Err(e),
                    Ok(s) => Ok(s.get_user_context(find_by_token)),
                }
            };
        ctx.cache.user_id_context.get_or_try_init(build)
    }
}

/// Signs a caller in and out.
pub struct UserLoginService {
    token_cookie: Option<String>,
}

impl View for UserLoginService {
    type V = Option<String>;

    closed spec fn view(&self) -> Option<String> {
        self.token_cookie
    }
}

impl UserLoginService {
    pub fn new(token_cookie: Option<String>) -> (r: UserLoginService)
        ensures
            r@ == token_cookie,
    {
        UserLoginService { token_cookie }
    }

    /// The service for the request of `ctx`; `RequestError` outside a request.
    pub fn from_context(ctx: &Context) -> (r: Result<UserLoginService, ContextError>)
        ensures
            ctx.req is None ==> r == Err::<UserLoginService, ContextError>(
                ContextError::RequestError,
            ),
            ctx.req matches Some(p) ==> r matches Ok(s) && s@ == p.token_cookie,
    {
        let token = ctx.token_cookie()?;
        Ok(UserLoginService::new(token))
    }

    /// Revokes the request's login token through `delete_token`, the store's
    /// removal. True only when there is a token and the store removed it.
    pub fn logout<F>(&self, delete_token: F) -> (r: bool) where
        F: FnOnce(String) -> Result<(), UserRepositoryError>,

        requires
            self@ is Some ==> delete_token.requires((self@->Some_0,)),
        ensures
            self@ is None ==> !r,
            self@ matches Some(t) ==> exists|done: Result<(), UserRepositoryError>|
                #[trigger] delete_token.ensures((t,), done) && r == done is Ok,
    {
        match &self.token_cookie {
            Some(token) => {
                let done = delete_token(token.clone());
                done.is_ok()
            },
            None => false,
        }
    }
}

} // verus!
