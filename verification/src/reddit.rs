//! The submission fetcher's decision logic: listing URLs, the typed error
//! taxonomy, status-code classification (including the identity probe that
//! tells a suspended account from a forbidden listing), the pagination
//! cursor rule, the id-only pre-filter of fetched pages, and how each fetch
//! outcome is recorded in the cache's status block.
//!
//! The requests themselves are outside work; the loop that performs them
//! feeds their plain outcomes through these functions.

use vstd::prelude::*;

use crate::cli::{category_str, timeframe_str, RedditCategoryFilter, RedditTimeframeFilter};
use crate::state::{
    spec_has_id, FileCacheInfo, FileCacheItemLatest, FileCacheLatest, LastDownloadStatus,
    ResourceStatus,
};
use crate::submitted_response::RedditSubmittedChild;
use crate::text::u64_to_string;

verus! {

/// How many submissions one listing request asks for.
pub const MAX_SUBMISSIONS_PER_REQUEST: u32 = 100;

/// The fetch-level failures, each distinguishable so the right resource and
/// run status can be persisted before the error surfaces.
#[derive(Debug, Clone, PartialEq, Eq)]
pub enum RedditProviderError {
    ReqwestMiddleware(String),
    Reqwest(String),
    SerdeJson(String),
    NotFound,
    Suspended,
    TooManyRequests,
    Forbidden,
}

/// The user-listing URL: the resource, the filters, the page size and an
/// optional continuation cursor.
pub open spec fn spec_user_submitted_url(
    user: Seq<char>,
    after: Option<Seq<char>>,
    category: RedditCategoryFilter,
    timeframe: RedditTimeframeFilter,
) -> Seq<char> {
    let base = "https://www.reddit.com/user/"@ + user + "/submitted.json?include_over_18=on&limit="@
        + category_str(category) + "&sort="@ + timeframe_str(timeframe) + "&t="@ + crate::text::u64_string(
        MAX_SUBMISSIONS_PER_REQUEST as int,
    );
    match after {
        Some(a) => base + "&after="@ + a + "&raw_json=1"@,
        None => base + "&raw_json=1"@,
    }
}

/// Builds the user-listing URL.
pub fn gen_user_submitted_url(
    user: &str,
    after: Option<&str>,
    category: &RedditCategoryFilter,
    timeframe: &RedditTimeframeFilter,
) -> (r: String)
    ensures
        r@ == spec_user_submitted_url(
            user@,
            match after {
                Some(a) => Some(a@),
                None => None,
            },
            *category,
            *timeframe,
        ),
{
    let mut r = "https://www.reddit.com/user/".to_owned();
    r.append(user);
    r.append("/submitted.json?include_over_18=on&limit=");
    r.append(category.as_str());
    r.append("&sort=");
    r.append(timeframe.as_str());
    r.append("&t=");
    let count = u64_to_string(MAX_SUBMISSIONS_PER_REQUEST as u64);
    r.append(count.as_str());
    match after {
        Some(a) => {
            r.append("&after=");
            r.append(a);
            r.append("&raw_json=1");
            assert(r@ =~= spec_user_submitted_url(user@, Some(a@), *category, *timeframe));
        },
        None => {
            r.append("&raw_json=1");
            assert(r@ =~= spec_user_submitted_url(
                user@,
                None::<Seq<char>>,
                *category,
                *timeframe,
            ));
        },
    }
    r
}

/// The identity-probe URL of a user.
pub fn gen_user_about_url(user: &str) -> (r: String)
    ensures
        r@ == "https://www.reddit.com/user/"@ + user@ + "/about.json?raw_json=1"@,
{
    let mut r = "https://www.reddit.com/user/".to_owned();
    r.append(user);
    r.append("/about.json?raw_json=1");
    assert(r@ =~= "https://www.reddit.com/user/"@ + user@ + "/about.json?raw_json=1"@);
    r
}

/// The subreddit-listing URL.
pub open spec fn spec_subreddit_submitted_url(
    subreddit: Seq<char>,
    after: Option<Seq<char>>,
    category: RedditCategoryFilter,
    timeframe: RedditTimeframeFilter,
) -> Seq<char> {
    let base = "https://www.reddit.com/r/"@ + subreddit + "/"@ + category_str(category)
        + ".json?include_over_18=on&limit=100&t="@ + timeframe_str(timeframe);
    match after {
        Some(a) => base + "&after="@ + a + "&raw_json=1"@,
        None => base + "&raw_json=1"@,
    }
}

/// Builds the subreddit-listing URL.
pub fn gen_subreddit_submitted_url(
    subreddit: &str,
    after: Option<&str>,
    category: &RedditCategoryFilter,
    timeframe: &RedditTimeframeFilter,
) -> (r: String)
    ensures
        r@ == spec_subreddit_submitted_url(
            subreddit@,
            match after {
                Some(a) => Some(a@),
                None => None,
            },
            *category,
            *timeframe,
        ),
{
    let mut r = "https://www.reddit.com/r/".to_owned();
    r.append(subreddit);
    r.append("/");
    r.append(category.as_str());
    r.append(".json?include_over_18=on&limit=100&t=");
    r.append(timeframe.as_str());
    match after {
        Some(a) => {
            r.append("&after=");
            r.append(a);
            r.append("&raw_json=1");
            assert(r@ =~= spec_subreddit_submitted_url(
                subreddit@,
                Some(a@),
                *category,
                *timeframe,
            ));
        },
        None => {
            r.append("&raw_json=1");
            assert(r@ =~= spec_subreddit_submitted_url(
                subreddit@,
                None::<Seq<char>>,
                *category,
                *timeframe,
            ));
        },
    }
    r
}

/// The search-listing URL.
pub open spec fn spec_search_url(
    term: Seq<char>,
    after: Option<Seq<char>>,
    category: RedditCategoryFilter,
    timeframe: RedditTimeframeFilter,
) -> Seq<char> {
    let base = "https://www.reddit.com/search.json?q="@ + term
        + "&include_over_18=on&count=100&sort="@ + category_str(category) + "&t="@ + timeframe_str(
        timeframe,
    );
    match after {
        Some(a) => base + "&after="@ + a + "&raw_json=1"@,
        None => base + "&raw_json=1"@,
    }
}

/// Builds the search-listing URL.
pub fn gen_search_url(
    term: &str,
    after: Option<&str>,
    category: &RedditCategoryFilter,
    timeframe: &RedditTimeframeFilter,
) -> (r: String)
    ensures
        r@ == spec_search_url(
            term@,
            match after {
                Some(a) => Some(a@),
                None => None,
            },
            *category,
            *timeframe,
        ),
{
    let mut r = "https://www.reddit.com/search.json?q=".to_owned();
    r.append(term);
    r.append("&include_over_18=on&count=100&sort=");
    r.append(category.as_str());
    r.append("&t=");
    r.append(timeframe.as_str());
    match after {
        Some(a) => {
            r.append("&after=");
            r.append(a);
            r.append("&raw_json=1");
            assert(r@ =~= spec_search_url(term@, Some(a@), *category, *timeframe));
        },
        None => {
            r.append("&raw_json=1");
            assert(r@ =~= spec_search_url(term@, None::<Seq<char>>, *category, *timeframe));
        },
    }
    r
}

/// What a listing response's status code calls for. Only the user-listing
/// endpoint resolves a denial through the identity probe; the others treat
/// every denial as forbidden.
#[derive(Debug, Clone, Copy, PartialEq, Eq, Structural)]
pub enum ListingStatusDecision {
    /// Read the page.
    Proceed,
    /// Abort: the platform rate-limited the run.
    RateLimited,
    /// Abort: the resource does not exist.
    NotFound,
    /// Ask the identity probe whether the account is suspended.
    ProbeIdentity,
    /// Abort: access denied.
    Forbidden,
}

/// The decision each status code calls for.
pub open spec fn spec_listing_status_decision(
    status: u16,
    is_user_listing: bool,
) -> ListingStatusDecision {
    if status == 429 {
        ListingStatusDecision::RateLimited
    } else if status == 404 {
        ListingStatusDecision::NotFound
    } else if status == 403 {
        if is_user_listing {
            ListingStatusDecision::ProbeIdentity
        } else {
            ListingStatusDecision::Forbidden
        }
    } else {
        ListingStatusDecision::Proceed
    }
}

/// Classifies a listing response's status code.
pub fn classify_listing_status(status: u16, is_user_listing: bool) -> (r: ListingStatusDecision)
    ensures
        r == spec_listing_status_decision(status, is_user_listing),
{
    if status == 429 {
        ListingStatusDecision::RateLimited
    } else if status == 404 {
        ListingStatusDecision::NotFound
    } else if status == 403 {
        if is_user_listing {
            ListingStatusDecision::ProbeIdentity
        } else {
            ListingStatusDecision::Forbidden
        }
    } else {
        ListingStatusDecision::Proceed
    }
}

/// Resolves the identity probe's answer: a suspended account is reported as
/// suspended; an active account, or a probe that itself failed, as
/// forbidden.
pub fn resolve_identity_probe(is_suspended: Option<bool>) -> (r: RedditProviderError)
    ensures
        is_suspended == Some(true) ==> r == RedditProviderError::Suspended,
        is_suspended != Some(true) ==> r == RedditProviderError::Forbidden,
{
    match is_suspended {
        Some(true) => RedditProviderError::Suspended,
        _ => RedditProviderError::Forbidden,
    }
}

/// The cursor the next page request carries: none when the page carried no
/// cursor, and none once a page carrying one has been fetched while the
/// request count has reached the page limit — so the final page is never
/// skipped for hitting the limit.
pub open spec fn spec_next_cursor(
    after: Option<String>,
    request_count: u32,
    limit: Option<u32>,
) -> Option<String> {
    match after {
        None => None,
        Some(a) => if limit matches Some(l) && request_count >= l {
            None
        } else {
            Some(a)
        },
    }
}

/// Decides whether pagination continues, and with which cursor.
pub fn next_page_cursor(after: Option<String>, request_count: u32, limit: Option<u32>) -> (r:
    Option<String>)
    ensures
        r == spec_next_cursor(after, request_count, limit),
{
    match after {
        None => None,
        Some(a) => {
            match limit {
                Some(l) => if request_count >= l {
                    None
                } else {
                    Some(a)
                },
                None => Some(a),
            }
        },
    }
}

/// The posts of a page that survive the pre-filter: those whose id the
/// cache does not hold at all, in page order.
pub open spec fn retained_children(
    cs: Seq<RedditSubmittedChild>,
    files: Seq<FileCacheItemLatest>,
) -> Seq<RedditSubmittedChild>
    decreases cs.len()
{
    if cs.len() == 0 {
        Seq::empty()
    } else {
        let rest = retained_children(cs.drop_first(), files);
        if spec_has_id(files, cs[0].data.id@) {
            rest
        } else {
            seq![cs[0]] + rest
        }
    }
}

/// Strips from a fetched page every post whose id the cache already holds —
/// an id-only match, before classification — keeping page order.
pub fn filter_cached_children(
    children: Vec<RedditSubmittedChild>,
    cache: &FileCacheLatest,
) -> (r: Vec<RedditSubmittedChild>)
    ensures
        r@ == retained_children(children@, cache.files@),
{
    let mut input = children;
    let ghost original: Seq<RedditSubmittedChild> = input@;
    let mut out: Vec<RedditSubmittedChild> = Vec::new();
    proof {
        assert(out@ + retained_children(input@, cache.files@) =~= retained_children(
            original,
            cache.files@,
        ));
    }
    while input.len() > 0
        invariant
            out@ + retained_children(input@, cache.files@) =~= retained_children(
                original,
                cache.files@,
            ),
        decreases input.len(),
    {
        let ghost before = input@;
        let c = input.remove(0);
        proof {
            assert(input@ =~= before.drop_first());
        }
        if !cache.contains_id(c.data.id.as_str()) {
            out.push(c);
        }
        proof {
            assert(out@ + retained_children(input@, cache.files@) =~= retained_children(
                original,
                cache.files@,
            ));
        }
    }
    proof {
        assert(out@ =~= retained_children(original, cache.files@));
    }
    out
}

/// Whether the run must be skipped outright: the cache marks the resource
/// itself as gone — deleted or suspended — and the caller did not force a
/// retry.
pub fn should_skip_resource(status: FileCacheInfo, force: bool) -> (r: bool)
    ensures
        r == (!force && (status.resource == ResourceStatus::Deleted || status.resource
            == ResourceStatus::Suspended)),
{
    if force {
        false
    } else {
        match status.resource {
            ResourceStatus::Deleted => true,
            ResourceStatus::Suspended => true,
            ResourceStatus::Active => false,
        }
    }
}

/// Records a successful fetch: the resource is active and the run
/// succeeded; the records are untouched.
pub fn apply_fetch_success(cache: &mut FileCacheLatest)
    ensures
        final(cache).status.resource == ResourceStatus::Active,
        final(cache).status.last_download == LastDownloadStatus::Success,
        final(cache).files@ == old(cache).files@,
        final(cache).version == old(cache).version,
{
    cache.status = FileCacheInfo {
        resource: ResourceStatus::Active,
        last_download: LastDownloadStatus::Success,
    };
}

/// Records a skipped run against a gone resource: the run itself counts as
/// a success; the resource's fate and the records are untouched.
pub fn apply_skip_success(cache: &mut FileCacheLatest)
    ensures
        final(cache).status.resource == old(cache).status.resource,
        final(cache).status.last_download == LastDownloadStatus::Success,
        final(cache).files@ == old(cache).files@,
        final(cache).version == old(cache).version,
{
    cache.status = FileCacheInfo {
        resource: cache.status.resource,
        last_download: LastDownloadStatus::Success,
    };
}

/// Records a failed fetch in the cache's status block and reports whether
/// the failure aborts the run: a deleted or suspended resource ends the run
/// quietly with its fate recorded; a rate limit, a denial or a transport or
/// decode failure is recorded as the run's outcome and then surfaced.
pub fn apply_fetch_error(cache: &mut FileCacheLatest, err: &RedditProviderError) -> (aborts: bool)
    ensures
        final(cache).files@ == old(cache).files@,
        final(cache).version == old(cache).version,
        match err {
            RedditProviderError::NotFound => !aborts && final(cache).status == (FileCacheInfo {
                resource: ResourceStatus::Deleted,
                last_download: LastDownloadStatus::Success,
            }),
            RedditProviderError::Suspended => !aborts && final(cache).status == (FileCacheInfo {
                resource: ResourceStatus::Suspended,
                last_download: LastDownloadStatus::Success,
            }),
            RedditProviderError::TooManyRequests => aborts && final(cache).status
                == (FileCacheInfo {
                resource: old(cache).status.resource,
                last_download: LastDownloadStatus::RateLimit,
            }),
            RedditProviderError::Forbidden => aborts && final(cache).status == (FileCacheInfo {
                resource: old(cache).status.resource,
                last_download: LastDownloadStatus::Forbidden,
            }),
            _ => aborts && final(cache).status == (FileCacheInfo {
                resource: old(cache).status.resource,
                last_download: LastDownloadStatus::Error,
            }),
        },
{
    match err {
        RedditProviderError::NotFound => {
            cache.status = FileCacheInfo {
                resource: ResourceStatus::Deleted,
                last_download: LastDownloadStatus::Success,
            };
            false
        },
        RedditProviderError::Suspended => {
            cache.status = FileCacheInfo {
                resource: ResourceStatus::Suspended,
                last_download: LastDownloadStatus::Success,
            };
            false
        },
        RedditProviderError::TooManyRequests => {
            cache.status = FileCacheInfo {
                resource: cache.status.resource,
                last_download: LastDownloadStatus::RateLimit,
            };
            true
        },
        RedditProviderError::Forbidden => {
            cache.status = FileCacheInfo {
                resource: cache.status.resource,
                last_download: LastDownloadStatus::Forbidden,
            };
            true
        },
        _ => {
            cache.status = FileCacheInfo {
                resource: cache.status.resource,
                last_download: LastDownloadStatus::Error,
            };
            true
        },
    }
}

} // verus!
