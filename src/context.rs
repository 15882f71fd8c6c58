use vstd::prelude::*;
use crate::cache_local::CacheLocal;
use crate::errors::ContextError;
use crate::identity::UserIdContext;

verus! {

/// What dependency resolution reads from the inbound request.
#[derive(Debug)]
pub struct RequestParts {
    /// The request's path, without the query.
    pub path: String,
    /// The value of the login token cookie, if the request carries one.
    pub token_cookie: Option<String>,
}

/// Process-wide settings shared by every request.
#[derive(Debug)]
pub struct Config {
    pub poem_public: PoemConfig,
    pub poem_backoffice: PoemConfig,
    pub sqlite: SqliteConfig,
}

/// Where a web service listens.
#[derive(Debug)]
pub struct PoemConfig {
    pub address: String,
    pub port: u16,
}

/// Where the database lives.
#[derive(Debug)]
pub struct SqliteConfig {
    pub path: String,
}

/// One slot per dependency type that is memoized within a request.
pub struct RequestCache {
    pub user_id_context: CacheLocal<UserIdContext>,
}

impl RequestCache {
    /// Every slot empty.
    pub fn new() -> (r: RequestCache)
        ensures
            r.user_id_context@ is None,
    {
        RequestCache { user_id_context: CacheLocal::new() }
    }
}

/// The per-request handle that every dependency resolves against.
pub struct Context {
    /// The inbound request, absent when resolving outside any request.
    pub req: Option<RequestParts>,
    /// The process-wide configuration.
    pub config: std::sync::Arc<Config>,
    /// Values already built in this request.
    pub cache: RequestCache,
}

impl Context {
    /// The context of a new inbound request: built only when the
    /// process-wide configuration is still available, with nothing cached.
    pub fn from_request(req: RequestParts, config: Option<std::sync::Arc<Config>>) -> (r: Result<
        Context,
        ContextError,
    >)
        ensures
            config is None <==> r == Err::<Context, ContextError>(ContextError::ConfigError),
            config is Some <==> r is Ok,
            r matches Ok(ctx) ==> {
                &&& ctx.req == Some(req)
                &&& ctx.config == config->Some_0
                &&& ctx.cache.user_id_context@ is None
            },
    {
        match config {
            None => Err(ContextError::ConfigError),
            Some(config) => Ok(Context { req: Some(req), config, cache: RequestCache::new() }),
        }
    }

    /// A context for resolving outside any request, with nothing cached.
    pub fn without_request(config: std::sync::Arc<Config>) -> (r: Context)
        ensures
            r.req is None,
            r.config == config,
            r.cache.user_id_context@ is None,
    {
        Context { req: None, config, cache: RequestCache::new() }
    }

    /// The login token the request carries; `RequestError` outside a request.
    pub fn token_cookie(&self) -> (r: Result<Option<String>, ContextError>)
        ensures
            self.req is None ==> r == Err::<Option<String>, ContextError>(
                ContextError::RequestError,
            ),
            self.req matches Some(p) ==> r == Ok::<Option<String>, ContextError>(p.token_cookie),
    {
        match &self.req {
            None => Err(ContextError::RequestError),
            Some(p) => Ok(p.token_cookie.clone()),
        }
    }
}

} // verus!
