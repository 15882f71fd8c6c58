use vstd::prelude::*;

verus! {

/// Where the CSRF token endpoint is mounted.
pub const CSRF_PATH: &'static str = "/csrf/";

/// A form or header failed the CSRF check.
#[derive(Clone, Copy, Debug, PartialEq, Eq, Structural)]
pub struct CsrfError;

impl CsrfError {
    /// Answered with 403 Forbidden.
    pub fn status(&self) -> (r: u16)
        ensures
            r == 403,
    {
        403
    }
}

/// Proof that a request's `X-Csrf-Token` header passed the check.
#[derive(Clone, Copy, Debug, PartialEq, Eq, Structural)]
pub struct CsrfHeaderChecker;

impl CsrfHeaderChecker {
    /// Checks the request's `X-Csrf-Token` header. Without the header the
    /// request is refused; when the application runs no verifier the header
    /// is enough; otherwise the verifier's `is_valid` decides.
    pub fn from_request<V>(header: Option<String>, is_valid: Option<V>) -> (r: Result<
        CsrfHeaderChecker,
        CsrfError,
    >) where V: FnOnce(String) -> bool,

        requires
            header matches Some(t) && is_valid matches Some(v) ==> v.requires((t,)),
        ensures
            header is None ==> r is Err,
            header is Some && is_valid is None ==> r is Ok,
            header matches Some(t) && is_valid matches Some(v) ==> exists|ok: bool|
                #[trigger] v.ensures((t,), ok) && (r is Ok <==> ok),
    {
        let token = match header {
            None => {
                return Err(CsrfError);
            },
            Some(t) => t,
        };
        match is_valid {
            None => Ok(CsrfHeaderChecker),
            Some(v) => {
                if v(token) {
                    Ok(CsrfHeaderChecker)
                } else {
                    Err(CsrfError)
                }
            },
        }
    }
}

} // verus!
