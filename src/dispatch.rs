//! What the request dispatcher decides: which route a request takes, and
//! which reply each outcome of the outside calls leads to.
use vstd::prelude::*;
use vstd::string::*;

use crate::campaign::{AdSlot, AdUnit};
use crate::error::{uri_error, ServiceError};

verus! {

#[verifier::external_type_specification]
#[verifier::external_body]
pub struct ExUri(http::Uri);

/// The path prefix of the slot lookup route.
pub const ROUTE_UNITS_FOR_SLOT: &'static str = "/units-for-slot/";

/// The query flag that turns targeting off.
pub const NO_TARGETING: &'static str = "noTargeting";

pub const STATUS_OK: u16 = 200;

pub const STATUS_NOT_FOUND: u16 = 404;

pub const STATUS_SERVICE_UNAVAILABLE: u16 = 503;

pub open spec fn starts_with(s: Seq<char>, prefix: Seq<char>) -> bool {
    prefix.len() <= s.len() && s.subrange(0, prefix.len() as int) == prefix
}

/// `s` with every leading repetition of `prefix` removed.
pub open spec fn trim_prefix(s: Seq<char>, prefix: Seq<char>) -> Seq<char>
    decreases s.len(),
{
    if prefix.len() > 0 && starts_with(s, prefix) {
        trim_prefix(s.subrange(prefix.len() as int, s.len() as int), prefix)
    } else {
        s
    }
}

/// `pattern` occurs somewhere in `s`.
pub open spec fn contains(s: Seq<char>, pattern: Seq<char>) -> bool {
    exists|i: int|
        0 <= i && i + pattern.len() <= s.len() && #[trigger] s.subrange(i, i + pattern.len())
            == pattern
}

/// Targeting applies unless the query carries the flag that turns it off.
pub open spec fn targeting_applies(query: Option<Seq<char>>) -> bool {
    match query {
        Some(q) => !contains(q, NO_TARGETING@),
        None => true,
    }
}

pub open spec fn query_view(query: Option<&str>) -> Option<Seq<char>> {
    match query {
        Some(q) => Some(q@),
        None => None,
    }
}

/// The route a request takes.
#[derive(Debug)]
pub enum Route {
    /// A slot lookup without a slot identifier.
    NotFound,
    /// A slot lookup for the slot `ipfs`.
    Slot { ipfs: String, apply_targeting: bool },
    /// Anything else: forwarded to the Market.
    Proxy,
}

/// `s` holds `pattern` from position `from` on.
fn matches_at(s: &str, from: usize, pattern: &str) -> (r: bool)
    requires
        from <= s@.len(),
    ensures
        r == (from + pattern@.len() <= s@.len() && s@.subrange(
            from as int,
            from + pattern@.len(),
        ) == pattern@),
{
    let n = s.unicode_len();
    let m = pattern.unicode_len();
    if m > n - from {
        return false;
    }
    let mut k: usize = 0;
    while k < m
        invariant
            k <= m,
            m == pattern@.len(),
            n == s@.len(),
            from + m <= n,
            forall|t: int| 0 <= t < k ==> s@[from + t] == pattern@[t],
        decreases m - k,
    {
        if s.get_char(from + k) != pattern.get_char(k) {
            assert(s@.subrange(from as int, from + m)[k as int] != pattern@[k as int]);
            return false;
        }
        k = k + 1;
    }
    assert(s@.subrange(from as int, from + m) =~= pattern@);
    true
}

/// Whether `pattern` occurs in `s`.
fn contains_str(s: &str, pattern: &str) -> (r: bool)
    ensures
        r == contains(s@, pattern@),
{
    let n = s.unicode_len();
    let m = pattern.unicode_len();
    if m > n {
        return false;
    }
    let mut i: usize = 0;
    while i < n - m
        invariant
            i <= n - m,
            n == s@.len(),
            m == pattern@.len(),
            m <= n,
            forall|j: int|
                0 <= j < i ==> #[trigger] s@.subrange(j, j + pattern@.len()) != pattern@,
        decreases n - m - i,
    {
        if matches_at(s, i, pattern) {
            return true;
        }
        i = i + 1;
    }
    matches_at(s, i, pattern)
}

/// `path` with every leading repetition of the slot route removed.
fn strip_route(path: &str) -> (r: &str)
    ensures
        r@ == trim_prefix(path@, ROUTE_UNITS_FOR_SLOT@),
{
    proof {
        reveal_strlit("/units-for-slot/");
    }
    let m = ROUTE_UNITS_FOR_SLOT.unicode_len();
    let mut rest = path;
    while matches_at(rest, 0, ROUTE_UNITS_FOR_SLOT)
        invariant
            m == ROUTE_UNITS_FOR_SLOT@.len(),
            m > 0,
            trim_prefix(rest@, ROUTE_UNITS_FOR_SLOT@) == trim_prefix(path@, ROUTE_UNITS_FOR_SLOT@),
        decreases rest@.len(),
    {
        let n = rest.unicode_len();
        rest = rest.substring_char(m, n);
    }
    rest
}

/// The route of a request with the given path, query and method: a read of
/// the slot route goes to a slot lookup, or to a not-found reply where no
/// slot identifier follows the route; anything else is forwarded.
pub fn route(path: &str, query: Option<&str>, is_get: bool) -> (r: Route)
    ensures
        !(is_get && starts_with(path@, ROUTE_UNITS_FOR_SLOT@)) ==> r is Proxy,
        is_get && starts_with(path@, ROUTE_UNITS_FOR_SLOT@) ==> {
            let id = trim_prefix(path@, ROUTE_UNITS_FOR_SLOT@);
            if id.len() == 0 {
                r is NotFound
            } else {
                match r {
                    Route::Slot { ipfs, apply_targeting } => ipfs@ == id && apply_targeting
                        == targeting_applies(query_view(query)),
                    _ => false,
                }
            }
        },
{
    if !is_get || !matches_at(path, 0, ROUTE_UNITS_FOR_SLOT) {
        return Route::Proxy;
    }
    let id = strip_route(path);
    if id.unicode_len() == 0 {
        return Route::NotFound;
    }
    let apply_targeting = match query {
        Some(q) => !contains_str(q, NO_TARGETING),
        None => true,
    };
    Route::Slot { ipfs: id.to_owned(), apply_targeting }
}

/// The reply that a request ends in.
#[derive(Debug)]
pub enum Reply {
    /// The slot identifier is missing or the Market does not know the slot.
    NotFound,
    /// The slot's ad-units were fetched; `ipfses` are their identifiers.
    Units { ipfses: Vec<String> },
    /// The Market could not be reached.
    ServiceUnavailable,
    /// The Market's own response, relayed as it came.
    Relay,
}

impl Reply {
    /// The status code of the reply; a relayed response keeps its own.
    pub fn status(&self) -> (r: Option<u16>)
        ensures
            r == match self {
                Reply::NotFound => Some(STATUS_NOT_FOUND),
                Reply::Units { .. } => Some(STATUS_OK),
                Reply::ServiceUnavailable => Some(STATUS_SERVICE_UNAVAILABLE),
                Reply::Relay => None::<u16>,
            },
    {
        match self {
            Reply::NotFound => Some(STATUS_NOT_FOUND),
            Reply::Units { .. } => Some(STATUS_OK),
            Reply::ServiceUnavailable => Some(STATUS_SERVICE_UNAVAILABLE),
            Reply::Relay => None,
        }
    }
}

/// What follows the Market's answer to a slot lookup: the slot, to fetch
/// its ad-units, or a not-found reply where the Market does not know it.
pub fn after_slot_fetch(slot: Option<AdSlot>) -> (r: Result<AdSlot, Reply>)
    ensures
        match slot {
            Some(s) => r == Ok::<AdSlot, Reply>(s),
            None => r matches Err(Reply::NotFound),
        },
{
    match slot {
        Some(s) => Ok(s),
        None => Err(Reply::NotFound),
    }
}

pub open spec fn unit_ids(units: Seq<AdUnit>) -> Seq<Seq<char>> {
    units.map_values(|u: AdUnit| u.ipfs@)
}

pub open spec fn strings_view(ss: Seq<String>) -> Seq<Seq<char>> {
    ss.map_values(|s: String| s@)
}

/// The reply once the slot's ad-units were fetched: it lists their
/// identifiers, in order.
pub fn units_reply(units: &Vec<AdUnit>) -> (r: Reply)
    ensures
        match r {
            Reply::Units { ipfses } => strings_view(ipfses@) == unit_ids(units@),
            _ => false,
        },
{
    let mut ipfses: Vec<String> = Vec::new();
    let mut i: usize = 0;
    while i < units.len()
        invariant
            i <= units@.len(),
            strings_view(ipfses@) == unit_ids(units@.subrange(0, i as int)),
        decreases units@.len() - i,
    {
        let ghost prev = ipfses@;
        ipfses.push(units[i].ipfs.clone());
        assert(strings_view(ipfses@) =~= strings_view(prev).push(units@[i as int].ipfs@));
        assert(unit_ids(units@.subrange(0, i + 1)) =~= unit_ids(units@.subrange(0, i as int)).push(
            units@[i as int].ipfs@,
        ));
        i = i + 1;
    }
    assert(units@.subrange(0, units@.len() as int) =~= units@);
    Reply::Units { ipfses }
}

/// The reply once a forwarded request is done: the Market's own response
/// where it answered, service unavailable where it could not be reached.
pub fn forward_reply(answered: bool) -> (r: Reply)
    ensures
        answered ==> r is Relay,
        !answered ==> r is ServiceUnavailable,
{
    if answered {
        Reply::Relay
    } else {
        Reply::ServiceUnavailable
    }
}

/// Whether http accepts the text as a URI.
pub uninterp spec fn uri_accepts(s: Seq<char>) -> bool;

/// Relies on http's `FromStr for Uri`: whether the text parses depends on
/// the text alone, and empty text is refused.
#[verifier::external_body]
fn parse_uri(s: &str) -> (r: Result<http::Uri, http::uri::InvalidUri>)
    ensures
        r.is_ok() == uri_accepts(s@),
        s@.len() == 0 ==> r.is_err(),
{
    s.parse::<http::Uri>()
}

/// The target of a forwarded request: the Market's base URL followed by the
/// request's path and query. Where that is no URI the request fails.
pub fn proxy_target(market_url: &str, path_and_query: &str) -> (r: Result<http::Uri, ServiceError>)
    ensures
        match r {
            Ok(_) => uri_accepts(market_url@ + path_and_query@),
            Err(e) => !uri_accepts(market_url@ + path_and_query@) && e is Http,
        },
{
    let mut text = String::from_str(market_url);
    text.append(path_and_query);
    match parse_uri(text.as_str()) {
        Ok(uri) => Ok(uri),
        Err(e) => Err(ServiceError::Http(uri_error(e))),
    }
}

} // verus!
