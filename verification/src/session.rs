//! The session: the three fields that tell the feed backend whose data to
//! push, scraped from the kiosk page with defaults for whatever is missing.

use vstd::prelude::*;
use vstd::string::*;
use crate::pattern::{capture_first, first_capture};

verus! {

/// Visitor id, provider and route.  Made once, read by every emission.
#[derive(Clone, Debug, PartialEq, Eq)]
pub struct Session {
    pub sid: String,
    pub provider: String,
    pub route: String,
}

/// The mathematical value of a [`Session`].
pub struct SessionView {
    pub sid: Seq<char>,
    pub provider: Seq<char>,
    pub route: Seq<char>,
}

impl View for Session {
    type V = SessionView;

    open spec fn view(&self) -> SessionView {
        SessionView { sid: self.sid@, provider: self.provider@, route: self.route@ }
    }
}

/// The visitor id of a page that shows none: empty.
pub open spec fn default_sid() -> Seq<char> {
    Seq::empty()
}

/// The provider of a page that names none.
pub open spec fn default_provider() -> Seq<char> {
    "rapidkl"@
}

/// The route of a page that names none.
pub open spec fn default_route() -> Seq<char> {
    "300"@
}

/// Matches `var sid = '...'` with a value that is not empty.
pub open spec fn sid_pattern() -> Seq<char> {
    "var\\s+sid\\s*=\\s*'([^']+)'"@
}

/// Matches `var prm = '...'`; the value may be empty.
pub open spec fn provider_pattern() -> Seq<char> {
    "var\\s+prm\\s*=\\s*'([^']*)'"@
}

/// Matches `var no_route = '...'`; the value may be empty.
pub open spec fn route_pattern() -> Seq<char> {
    "var\\s+no_route\\s*=\\s*'([^']*)'"@
}

/// The path under which the dashboard serves its per-route pages.
pub open spec fn kiosk_path() -> Seq<char> {
    "/kiosk/"@
}

/// A found value, or the default in its place.
pub open spec fn or_default(found: Option<Seq<char>>, default: Seq<char>) -> Seq<char> {
    match found {
        Some(value) => value,
        None => default,
    }
}

/// Three independent findings merged with the defaults.
pub open spec fn merged(
    sid: Option<Seq<char>>,
    provider: Option<Seq<char>>,
    route: Option<Seq<char>>,
) -> SessionView {
    SessionView {
        sid: or_default(sid, default_sid()),
        provider: or_default(provider, default_provider()),
        route: or_default(route, default_route()),
    }
}

/// The session that a page's text yields.
pub open spec fn extracted(html: Seq<char>) -> SessionView {
    merged(
        first_capture(sid_pattern(), html),
        first_capture(provider_pattern(), html),
        first_capture(route_pattern(), html),
    )
}

/// The session after a fetch that gave a page, or gave none.
pub open spec fn resolved(page: Option<Seq<char>>) -> SessionView {
    match page {
        Some(html) => extracted(html),
        None => merged(None, None, None),
    }
}

/// `found`, or a fresh copy of `default`.
fn value_or(found: Option<String>, default: &str) -> (out: String)
    ensures
        out@ == (match found {
            Some(value) => value@,
            None => default@,
        }),
{
    match found {
        Some(value) => value,
        None => String::from_str(default),
    }
}

impl Session {
    /// Builds a session from what was found, each field falling back to its
    /// default on its own.
    pub fn from_fields(sid: Option<String>, provider: Option<String>, route: Option<String>) -> (out:
        Session)
        ensures
            out@ == merged(
                crate::codec::text_view(sid),
                crate::codec::text_view(provider),
                crate::codec::text_view(route),
            ),
    {
        let sid = match sid {
            Some(value) => value,
            None => String::new(),
        };
        Session { sid, provider: value_or(provider, "rapidkl"), route: value_or(route, "300") }
    }

    /// The session of defaults alone.
    pub fn degraded() -> (out: Session)
        ensures
            out@ == merged(None, None, None),
    {
        Session::from_fields(None, None, None)
    }

    /// A copy with the same three fields.
    pub fn duplicate(&self) -> (out: Session)
        ensures
            out@ == self@,
    {
        Session {
            sid: self.sid.clone(),
            provider: self.provider.clone(),
            route: self.route.clone(),
        }
    }
}

/// Finds the session fields of one kiosk page.
pub struct SessionResolver;

impl SessionResolver {
    /// The address of the page for `route_id` on the dashboard at `host`.
    pub fn page_url(host: &str, route_id: &str) -> (out: String)
        ensures
            out@ == host@ + kiosk_path() + route_id@,
    {
        String::from_str(host).concat("/kiosk/").concat(route_id)
    }

    /// Scans `html` for the three assignments, each on its own, and fills in
    /// the defaults for those it does not find.
    pub fn extract(html: &str) -> (out: Session)
        ensures
            out@ == extracted(html@),
    {
        let sid = capture_first("var\\s+sid\\s*=\\s*'([^']+)'", html);
        let provider = capture_first("var\\s+prm\\s*=\\s*'([^']*)'", html);
        let route = capture_first("var\\s+no_route\\s*=\\s*'([^']*)'", html);
        Session::from_fields(sid, provider, route)
    }

    /// The session for the outcome of the page fetch: the page's fields where
    /// a page came, the defaults where the fetch failed.  Never fails.
    pub fn resolve(page: Option<&str>) -> (out: Session)
        ensures
            out@ == resolved(
                match page {
                    Some(html) => Some(html@),
                    None => None,
                },
            ),
    {
        match page {
            Some(html) => SessionResolver::extract(html),
            None => Session::degraded(),
        }
    }
}

} // verus!
