//! The four proxy variables of the session, as values.
//!
//! `ProxyVars` holds what the variables `http_proxy`, `https_proxy`,
//! `HTTP_PROXY` and `HTTPS_PROXY` are set to. Every change the manager makes
//! to them goes through this type; the caller copies the result into the
//! process environment.

use vstd::prelude::*;
use vstd::string::*;
use crate::text::{decimal, decimal_string};

verus! {

/// The text of an optional string.
pub open spec fn opt_text(o: Option<String>) -> Option<Seq<char>> {
    match o {
        Some(s) => Some(s@),
        None => None,
    }
}

/// A copy of an optional string.
pub fn copy_text(o: &Option<String>) -> (r: Option<String>)
    ensures
        opt_text(r) == opt_text(*o),
{
    match o {
        Some(s) => Some(s.clone()),
        None => None,
    }
}

/// The proxy address for a local port: `http://127.0.0.1:<port>`.
pub open spec fn proxy_url_text(port: u16) -> Seq<char> {
    "http://127.0.0.1:"@ + decimal(port as nat)
}

/// Builds `http://127.0.0.1:<port>`.
pub fn proxy_url(port: u16) -> (r: String)
    ensures
        r@ == proxy_url_text(port),
{
    let digits = decimal_string(port as u32);
    let mut url = String::from_str("http://127.0.0.1:");
    url.append(digits.as_str());
    url
}

/// The values of `http_proxy`, `https_proxy`, `HTTP_PROXY`, `HTTPS_PROXY`.
pub struct ProxyVars {
    pub http_lower: Option<String>,
    pub https_lower: Option<String>,
    pub http_upper: Option<String>,
    pub https_upper: Option<String>,
}

/// The four variables in the order of the fields of `ProxyVars`.
pub type VarsView = (Option<Seq<char>>, Option<Seq<char>>, Option<Seq<char>>, Option<Seq<char>>);

impl View for ProxyVars {
    type V = VarsView;

    open spec fn view(&self) -> VarsView {
        (
            opt_text(self.http_lower),
            opt_text(self.https_lower),
            opt_text(self.http_upper),
            opt_text(self.https_upper),
        )
    }
}

/// The variables after `enable(port)`: all four hold the proxy address.
pub open spec fn after_enable(v: VarsView, port: u16) -> VarsView {
    let u = Some(proxy_url_text(port));
    (u, u, u, u)
}

/// The variables after `disable()`: none of the four is set.
pub open spec fn after_disable(v: VarsView) -> VarsView {
    (None, None, None, None)
}

/// The effective value of a scheme: the lowercase variable, else the uppercase one.
pub open spec fn first_set(lower: Option<Seq<char>>, upper: Option<Seq<char>>) -> Option<
    Seq<char>,
> {
    if lower is Some {
        lower
    } else {
        upper
    }
}

/// The proxies in effect, `(http, https)`.
pub open spec fn snapshot_of(v: VarsView) -> (Option<Seq<char>>, Option<Seq<char>>) {
    (first_set(v.0, v.2), first_set(v.1, v.3))
}

/// The proxies in effect.
pub struct ProxySnapshot {
    pub http: Option<String>,
    pub https: Option<String>,
}

impl View for ProxySnapshot {
    type V = (Option<Seq<char>>, Option<Seq<char>>);

    open spec fn view(&self) -> (Option<Seq<char>>, Option<Seq<char>>) {
        (opt_text(self.http), opt_text(self.https))
    }
}

impl ProxySnapshot {
    /// A proxy is in effect when either scheme has one.
    pub open spec fn spec_active(&self) -> bool {
        self.http is Some || self.https is Some
    }

    pub fn is_active(&self) -> (r: bool)
        ensures
            r == self.spec_active(),
    {
        self.http.is_some() || self.https.is_some()
    }
}

impl ProxyVars {
    /// No variable set.
    pub fn new() -> (r: ProxyVars)
        ensures
            r@ == (None::<Seq<char>>, None::<Seq<char>>, None::<Seq<char>>, None::<Seq<char>>),
    {
        ProxyVars { http_lower: None, https_lower: None, http_upper: None, https_upper: None }
    }
}

/// Points all four variables at the local proxy on `port`.
pub fn enable_proxy(vars: &mut ProxyVars, port: u16)
    ensures
        final(vars)@ == after_enable(old(vars)@, port),
{
    let url = proxy_url(port);
    vars.http_lower = Some(url.clone());
    vars.https_lower = Some(url.clone());
    vars.http_upper = Some(url.clone());
    vars.https_upper = Some(url);
}

/// Unsets all four variables.
pub fn disable_proxy(vars: &mut ProxyVars)
    ensures
        final(vars)@ == after_disable(old(vars)@),
{
    vars.http_lower = None;
    vars.https_lower = None;
    vars.http_upper = None;
    vars.https_upper = None;
}

/// Reads the proxies in effect, lowercase names first, each scheme on its own.
pub fn snapshot(vars: &ProxyVars) -> (r: ProxySnapshot)
    ensures
        r@ == snapshot_of(vars@),
{
    let http = if vars.http_lower.is_some() {
        copy_text(&vars.http_lower)
    } else {
        copy_text(&vars.http_upper)
    };
    let https = if vars.https_lower.is_some() {
        copy_text(&vars.https_lower)
    } else {
        copy_text(&vars.https_upper)
    };
    ProxySnapshot { http, https }
}

/// Whether a proxy is in effect, and the HTTP proxy if one is.
pub fn get_current_proxy(vars: &ProxyVars) -> (r: (bool, Option<String>))
    ensures
        r.0 == (snapshot_of(vars@).0 is Some || snapshot_of(vars@).1 is Some),
        opt_text(r.1) == snapshot_of(vars@).0,
{
    let s = snapshot(vars);
    let active = s.is_active();
    (active, s.http)
}

/// After enabling on `port`, both schemes read `http://127.0.0.1:<port>`.
pub proof fn lemma_enable_then_snapshot(v: VarsView, port: u16)
    ensures
        snapshot_of(after_enable(v, port)) == (
            Some(proxy_url_text(port)),
            Some(proxy_url_text(port)),
        ),
{
}

/// After disabling, neither scheme has a proxy.
pub proof fn lemma_disable_then_snapshot(v: VarsView)
    ensures
        snapshot_of(after_disable(v)) == (None::<Seq<char>>, None::<Seq<char>>),
{
}

/// Enabling, disabling and enabling again on the same port leaves the
/// variables as a single enable does.
pub proof fn lemma_enable_disable_enable(v: VarsView, port: u16)
    ensures
        after_enable(after_disable(after_enable(v, port)), port) == after_enable(v, port),
{
}

} // verus!
