//! The endpoints of the mod database and the URLs that reach them.
use vstd::prelude::*;

verus! {

/// The root every endpoint hangs under.
pub const BASE_URL: &'static str = "https://mods.vintagestory.at/api";

/// Sort keys the `/mods` search accepts.
#[derive(Debug, Clone, Copy, PartialEq, Eq, Structural, PartialOrd, Ord, Hash)]
pub enum SortBy {
    Trending,
    Downloads,
    Comments,
    Name,
    Released,
    Created,
}

impl Default for SortBy {
    /// Sorting by last release date.
    fn default() -> (r: SortBy)
        ensures
            r == SortBy::Released,
    {
        SortBy::Released
    }
}

/// The value a sort key takes in a query string.
pub open spec fn sort_value(s: SortBy) -> Seq<char> {
    match s {
        SortBy::Trending => "trendingpoints"@,
        SortBy::Downloads => "downloads"@,
        SortBy::Comments => "comments"@,
        SortBy::Name => "name"@,
        SortBy::Released => "lastreleased"@,
        SortBy::Created => "created"@,
    }
}

impl SortBy {
    /// The value of this sort key in a query string.
    pub fn as_query_value(&self) -> (r: &'static str)
        ensures
            r@ == sort_value(*self),
    {
        match self {
            SortBy::Trending => "trendingpoints",
            SortBy::Downloads => "downloads",
            SortBy::Comments => "comments",
            SortBy::Name => "name",
            SortBy::Released => "lastreleased",
            SortBy::Created => "created",
        }
    }

    /// The same text as `as_query_value`, owned.
    pub fn to_string(&self) -> (r: String)
        ensures
            r@ == sort_value(*self),
    {
        String::from_str(self.as_query_value())
    }
}

/// The decimal digits of `n`, most significant first.
pub open spec fn decimal(n: nat) -> Seq<char>
    decreases n,
{
    if n < 10 {
        seq![digit_char(n)]
    } else {
        decimal(n / 10).push(digit_char(n % 10))
    }
}

pub open spec fn digit_char(d: nat) -> char {
    ((d + 48) as u32) as char
}

/// Relies on `u32::to_string` (its `Display` impl): the decimal digits of `n`.
#[verifier::external_body]
fn decimal_text(n: u32) -> (r: String)
    ensures
        r@ == decimal(n as nat),
{
    n.to_string()
}

/// A request the client can make.
#[derive(Debug, Clone)]
pub enum Endpoint {
    /// All mods, simplified.
    Mods,
    /// One mod in detail, by numeric id.
    ModById(u32),
    /// One mod in detail, by alias (or id written as text).
    ModByAlias(String),
    /// A server-side search of the mods.
    Search { query: String, ascending: bool, sort_by: SortBy },
    /// All tags.
    Tags,
    /// All authors.
    Authors,
    /// All game versions.
    GameVersions,
    /// The comments on one asset.
    Comments(u32),
}

/// The path and query of an endpoint, below `BASE_URL`.
pub open spec fn endpoint_path(e: Endpoint) -> Seq<char> {
    match e {
        Endpoint::Mods => "/mods"@,
        Endpoint::ModById(id) => "/mod/"@ + decimal(id as nat),
        Endpoint::ModByAlias(a) => "/mod/"@ + a@,
        Endpoint::Search { query, ascending, sort_by } => "/mods?text="@ + query@ + "&sortby="@
            + sort_value(sort_by) + "&sortdir="@ + (if ascending {
            "a"@
        } else {
            "d"@
        }) + "&side=&userid=0&mv="@,
        Endpoint::Tags => "/tags"@,
        Endpoint::Authors => "/authors"@,
        Endpoint::GameVersions => "/gameversions"@,
        Endpoint::Comments(id) => "/comments/"@ + decimal(id as nat),
    }
}

/// The search endpoint; a missing sort key means the default, last release date.
pub fn search_endpoint(query: &str, ascending: bool, sort_by: Option<SortBy>) -> (r: Endpoint)
    ensures
        r == (Endpoint::Search {
            query: r->query,
            ascending,
            sort_by: match sort_by {
                Some(s) => s,
                None => SortBy::Released,
            },
        }),
        r->query@ == query@,
{
    let sort_by = match sort_by {
        Some(s) => s,
        None => SortBy::default(),
    };
    Endpoint::Search { query: String::from_str(query), ascending, sort_by }
}

/// The full URL of an endpoint.
pub fn request_url(e: &Endpoint) -> (r: String)
    ensures
        r@ == BASE_URL@ + endpoint_path(*e),
{
    let mut url = String::from_str(BASE_URL);
    match e {
        Endpoint::Mods => url.append("/mods"),
        Endpoint::ModById(id) => {
            url.append("/mod/");
            let digits = decimal_text(*id);
            url.append(digits.as_str());
        },
        Endpoint::ModByAlias(a) => {
            url.append("/mod/");
            url.append(a.as_str());
        },
        Endpoint::Search { query, ascending, sort_by } => {
            url.append("/mods?text=");
            url.append(query.as_str());
            url.append("&sortby=");
            url.append(sort_by.as_query_value());
            url.append("&sortdir=");
            if *ascending {
                url.append("a");
            } else {
                url.append("d");
            }
            url.append("&side=&userid=0&mv=");
        },
        Endpoint::Tags => url.append("/tags"),
        Endpoint::Authors => url.append("/authors"),
        Endpoint::GameVersions => url.append("/gameversions"),
        Endpoint::Comments(id) => {
            url.append("/comments/");
            let digits = decimal_text(*id);
            url.append(digits.as_str());
        },
    }
    assert(url@ =~= BASE_URL@ + endpoint_path(*e));
    url
}

} // verus!
