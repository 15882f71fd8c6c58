use vstd::prelude::*;

verus! {

/// A response together with the htmx control headers to send with it.
pub struct HtmxResponse<R> {
    pub response: R,
    pub location_header: Option<String>,
    pub push_url_header: Option<String>,
    pub redirect_header: Option<String>,
    pub refresh_header: bool,
    pub replace_url_header: Option<String>,
    pub reswap_header: Option<String>,
    pub retarget_header: Option<String>,
    pub reselect_header: Option<String>,
    pub trigger_header: Option<String>,
    pub trigger_after_settle_header: Option<String>,
    pub trigger_after_swap_header: Option<String>,
}

/// Header name and value, as characters.
pub type HeaderView = (Seq<char>, Seq<char>);

/// The header `name: value`, when a value is set.
pub open spec fn header_if_set(name: Seq<char>, value: Option<String>) -> Seq<HeaderView> {
    match value {
        Some(v) => seq![(name, v@)],
        None => Seq::empty(),
    }
}

/// The headers of `h`, in the order they are sent.
pub open spec fn htmx_headers<R>(h: HtmxResponse<R>) -> Seq<HeaderView> {
    header_if_set("HX-Location"@, h.location_header)
        + header_if_set("HX-Push-Url"@, h.push_url_header)
        + header_if_set("HX-Redirect"@, h.redirect_header)
        + (if h.refresh_header { seq![("HX-Refresh"@, "true"@)] } else { Seq::empty() })
        + header_if_set("HX-Replace-Url"@, h.replace_url_header)
        + header_if_set("HX-Reswap"@, h.reswap_header)
        + header_if_set("HX-Retarget"@, h.retarget_header)
        + header_if_set("HX-Reselect"@, h.reselect_header)
        + header_if_set("HX-Trigger"@, h.trigger_header)
        + header_if_set("HX-Trigger-After-Settle"@, h.trigger_after_settle_header)
        + header_if_set("HX-Trigger-After-Swap"@, h.trigger_after_swap_header)
}

/// The characters of each header of `v`.
pub open spec fn header_views(v: Seq<(String, String)>) -> Seq<HeaderView> {
    v.map_values(|p: (String, String)| (p.0@, p.1@))
}

/// `a` and `b` differ at most in the headers named by `changed`, and `b`
/// carries the same response.
pub open spec fn same_except<R>(a: HtmxResponse<R>, b: HtmxResponse<R>, changed: Seq<char>) -> bool {
    &&& b.response == a.response
    &&& changed != "location"@ ==> b.location_header == a.location_header
    &&& changed != "push_url"@ ==> b.push_url_header == a.push_url_header
    &&& changed != "redirect"@ ==> b.redirect_header == a.redirect_header
    &&& changed != "refresh"@ ==> b.refresh_header == a.refresh_header
    &&& changed != "replace_url"@ ==> b.replace_url_header == a.replace_url_header
    &&& changed != "reswap"@ ==> b.reswap_header == a.reswap_header
    &&& changed != "retarget"@ ==> b.retarget_header == a.retarget_header
    &&& changed != "reselect"@ ==> b.reselect_header == a.reselect_header
    &&& changed != "trigger"@ ==> b.trigger_header == a.trigger_header
    &&& changed != "trigger_after_settle"@ ==> b.trigger_after_settle_header
        == a.trigger_after_settle_header
    &&& changed != "trigger_after_swap"@ ==> b.trigger_after_swap_header
        == a.trigger_after_swap_header
}

fn push_header(out: &mut Vec<(String, String)>, name: &str, value: &Option<String>)
    ensures
        header_views(final(out)@) == header_views(old(out)@) + header_if_set(name@, *value),
{
    match value {
        Some(v) => {
            let ghost before = out@;
            out.push((name.to_owned(), v.clone()));
            assert(header_views(out@) =~= header_views(before) + header_if_set(name@, *value));
        },
        None => {
            assert(header_views(out@) =~= header_views(out@) + header_if_set(name@, *value));
        },
    }
}

impl<R> HtmxResponse<R> {
    /// `response` with no htmx header set.
    pub fn new(response: R) -> (r: HtmxResponse<R>)
        ensures
            r.response == response,
            htmx_headers(r) == Seq::<HeaderView>::empty(),
    {
        let r = HtmxResponse {
            response,
            location_header: None,
            push_url_header: None,
            redirect_header: None,
            refresh_header: false,
            replace_url_header: None,
            reswap_header: None,
            retarget_header: None,
            reselect_header: None,
            trigger_header: None,
            trigger_after_settle_header: None,
            trigger_after_swap_header: None,
        };
        assert(htmx_headers(r) =~= Seq::<HeaderView>::empty());
        r
    }

    pub fn location(self, location: &str) -> (r: Self)
        ensures
            r.location_header matches Some(v) && v@ == location@,
            same_except(self, r, "location"@),
    {
        HtmxResponse { location_header: Some(location.to_owned()), ..self }
    }

    pub fn push_url(self, push_url: &str) -> (r: Self)
        ensures
            r.push_url_header matches Some(v) && v@ == push_url@,
            same_except(self, r, "push_url"@),
    {
        HtmxResponse { push_url_header: Some(push_url.to_owned()), ..self }
    }

    pub fn redirect(self, redirect: &str) -> (r: Self)
        ensures
            r.redirect_header matches Some(v) && v@ == redirect@,
            same_except(self, r, "redirect"@),
    {
        HtmxResponse { redirect_header: Some(redirect.to_owned()), ..self }
    }

    pub fn refresh(self) -> (r: Self)
        ensures
            r.refresh_header,
            same_except(self, r, "refresh"@),
    {
        HtmxResponse { refresh_header: true, ..self }
    }

    pub fn replace_url(self, replace_url: &str) -> (r: Self)
        ensures
            r.replace_url_header matches Some(v) && v@ == replace_url@,
            same_except(self, r, "replace_url"@),
    {
        HtmxResponse { replace_url_header: Some(replace_url.to_owned()), ..self }
    }

    pub fn reswap(self, reswap: &str) -> (r: Self)
        ensures
            r.reswap_header matches Some(v) && v@ == reswap@,
            same_except(self, r, "reswap"@),
    {
        HtmxResponse { reswap_header: Some(reswap.to_owned()), ..self }
    }

    pub fn retarget(self, retarget: &str) -> (r: Self)
        ensures
            r.retarget_header matches Some(v) && v@ == retarget@,
            same_except(self, r, "retarget"@),
    {
        HtmxResponse { retarget_header: Some(retarget.to_owned()), ..self }
    }

    pub fn reselect(self, reselect: &str) -> (r: Self)
        ensures
            r.reselect_header matches Some(v) && v@ == reselect@,
            same_except(self, r, "reselect"@),
    {
        HtmxResponse { reselect_header: Some(reselect.to_owned()), ..self }
    }

    pub fn trigger(self, trigger: &str) -> (r: Self)
        ensures
            r.trigger_header matches Some(v) && v@ == trigger@,
            same_except(self, r, "trigger"@),
    {
        HtmxResponse { trigger_header: Some(trigger.to_owned()), ..self }
    }

    pub fn trigger_after_settle(self, trigger_after_settle: &str) -> (r: Self)
        ensures
            r.trigger_after_settle_header matches Some(v) && v@ == trigger_after_settle@,
            same_except(self, r, "trigger_after_settle"@),
    {
        HtmxResponse { trigger_after_settle_header: Some(trigger_after_settle.to_owned()), ..self }
    }

    pub fn trigger_after_swap(self, trigger_after_swap: &str) -> (r: Self)
        ensures
            r.trigger_after_swap_header matches Some(v) && v@ == trigger_after_swap@,
            same_except(self, r, "trigger_after_swap"@),
    {
        HtmxResponse { trigger_after_swap_header: Some(trigger_after_swap.to_owned()), ..self }
    }

    /// The htmx headers to send, name and value, in order.
    pub fn headers(&self) -> (r: Vec<(String, String)>)
        ensures
            header_views(r@) == htmx_headers(*self),
    {
        let mut out: Vec<(String, String)> = Vec::new();
        assert(header_views(out@) =~= Seq::<HeaderView>::empty());
        push_header(&mut out, "HX-Location", &self.location_header);
        push_header(&mut out, "HX-Push-Url", &self.push_url_header);
        push_header(&mut out, "HX-Redirect", &self.redirect_header);
        let refresh: Option<String> = if self.refresh_header {
            Some("true".to_owned())
        } else {
            None
        };
        push_header(&mut out, "HX-Refresh", &refresh);
        push_header(&mut out, "HX-Replace-Url", &self.replace_url_header);
        push_header(&mut out, "HX-Reswap", &self.reswap_header);
        push_header(&mut out, "HX-Retarget", &self.retarget_header);
        push_header(&mut out, "HX-Reselect", &self.reselect_header);
        push_header(&mut out, "HX-Trigger", &self.trigger_header);
        push_header(&mut out, "HX-Trigger-After-Settle", &self.trigger_after_settle_header);
        push_header(&mut out, "HX-Trigger-After-Swap", &self.trigger_after_swap_header);
        assert(header_views(out@) =~= htmx_headers(*self));
        out
    }
}

/// Turns any response into an htmx response with no header set.
pub trait HtmxResponseExt: Sized {
    fn htmx_response(self) -> (r: HtmxResponse<Self>)
        ensures
            r.response == self,
            htmx_headers(r) == Seq::<HeaderView>::empty(),
    ;
}

impl<T> HtmxResponseExt for T {
    fn htmx_response(self) -> (r: HtmxResponse<T>) {
        HtmxResponse::new(self)
    }
}

} // verus!
