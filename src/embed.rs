use vstd::prelude::*;
use vstd::string::{StrSliceExecFns, StringExecFns};
use vstd::utf8::{decode_utf8, valid_utf8};
use crate::text::{ends_with_text, has_prefix, has_suffix, starts_with_text};

verus! {

/// What `str::to_lowercase` makes of the characters `s`.
pub uninterp spec fn lower_of(s: Seq<char>) -> Seq<char>;

/// Relies on `str::to_lowercase`: its result depends on the characters alone.
#[verifier::external_body]
fn lowercase(s: &str) -> (r: String)
    ensures
        r@ == lower_of(s@),
{
    s.to_lowercase()
}

/// Relies on `String::from_utf8`: it accepts exactly the valid UTF-8 byte
/// sequences and decodes them.
#[verifier::external_body]
fn string_from_utf8(bytes: Vec<u8>) -> (r: Option<String>)
    ensures
        r is Some <==> valid_utf8(bytes@),
        r matches Some(s) ==> s@ == decode_utf8(bytes@),
{
    String::from_utf8(bytes).ok()
}

/// The text of an embedded asset.
pub trait EmbedAsString {
    fn as_string(&self) -> String;
}

/// An asset's bytes, when the asset exists: its text is their UTF-8
/// decoding, and empty when it is missing or not valid UTF-8.
impl EmbedAsString for Option<Vec<u8>> {
    fn as_string(&self) -> (r: String)
        ensures
            self is Some && valid_utf8(self->Some_0@) ==> r@ == decode_utf8(self->Some_0@),
            !(self is Some && valid_utf8(self->Some_0@)) ==> r@ == Seq::<char>::empty(),
    {
        match self {
            None => String::new(),
            Some(b) => match string_from_utf8(b.clone()) {
                Some(s) => s,
                None => String::new(),
            },
        }
    }
}

/// The path and query a request for `path?query` is served from: outside a
/// debug build, a script under `/js/` that is not minified already (judged
/// on `lowered`, the path in lower case) is served from its `.min.js`
/// sibling; `None` leaves the request as it is.
pub open spec fn min_js_target(
    path: Seq<char>,
    lowered: Seq<char>,
    query: Seq<char>,
    debug: bool,
) -> Option<Seq<char>> {
    if debug || !has_prefix(path, "/js/"@) || has_suffix(lowered, ".min.js"@) || !has_suffix(
        lowered,
        ".js"@,
    ) {
        None
    } else {
        let base = if has_suffix(path, ".js"@) {
            path.subrange(0, path.len() - 3) + ".min.js"@
        } else if has_suffix(path, ".JS"@) {
            path.subrange(0, path.len() - 3) + ".MIN.JS"@
        } else {
            path
        };
        Some(base + "?"@ + query)
    }
}

/// The minified target of a request, given its path already in lower case
/// as `lowered`.
pub fn min_js_path(path: &str, lowered: &str, query: &str, debug: bool) -> (r: Option<String>)
    ensures
        r is Some <==> min_js_target(path@, lowered@, query@, debug) is Some,
        r matches Some(t) ==> t@ == min_js_target(path@, lowered@, query@, debug)->Some_0,
{
    if debug || !starts_with_text(path, "/js/") || ends_with_text(lowered, ".min.js")
        || !ends_with_text(lowered, ".js") {
        return None;
    }
    proof {
        reveal_strlit(".js");
        reveal_strlit(".JS");
    }
    let n = path.unicode_len();
    let base: String = if ends_with_text(path, ".js") {
        path.substring_char(0, n - 3).to_owned().concat(".min.js")
    } else if ends_with_text(path, ".JS") {
        path.substring_char(0, n - 3).to_owned().concat(".MIN.JS")
    } else {
        path.to_owned()
    };
    Some(base.concat("?").concat(query))
}

/// A handler that, in production, serves minified scripts in place of
/// their sources.
pub struct EnforceMinJsOnProd<E> {
    pub endpoint: E,
    /// Whether this is a debug build, which serves sources as they are.
    pub debug: bool,
}

/// Wraps `ep` so that production builds serve minified scripts.
pub fn enforce_min_js_on_prod<E>(ep: E, debug: bool) -> (r: EnforceMinJsOnProd<E>)
    ensures
        r.endpoint == ep,
        r.debug == debug,
{
    EnforceMinJsOnProd { endpoint: ep, debug }
}

impl<E> EnforceMinJsOnProd<E> {
    /// The path and query to serve a request for `path?query` from, or
    /// `None` to serve it as it is.
    pub fn rewrite(&self, path: &str, query: &str) -> (r: Option<String>)
        ensures
            r is Some <==> min_js_target(path@, lower_of(path@), query@, self.debug) is Some,
            r matches Some(t) ==> t@ == min_js_target(
                path@,
                lower_of(path@),
                query@,
                self.debug,
            )->Some_0,
    {
        let lowered = lowercase(path);
        min_js_path(path, lowered.as_str(), query, self.debug)
    }
}

} // verus!
