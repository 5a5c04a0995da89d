//! The resolved command-line request: which listing to crawl, under which
//! filters, and the shared run options. Argument parsing itself is outside
//! work; these are the plain values it produces.

use vstd::prelude::*;

verus! {

/// Options shared by every subcommand.
#[derive(Debug, Clone)]
pub struct CliSharedOptions {
    pub concurrency: u16,
    pub mock: Option<String>,
    pub output: String,
    pub skip: bool,
    pub verbose: bool,
    pub limit: Option<u32>,
    /// Retry a resource the cache marks as deleted or suspended.
    pub force: bool,
}

/// One listing request: the resource, its filters, and the shared options.
#[derive(Debug, Clone)]
pub struct CliRedditCommand {
    pub resource: String,
    pub category: RedditCategoryFilter,
    pub timeframe: RedditTimeframeFilter,
    pub options: CliSharedOptions,
}

/// The selected subcommand.
#[derive(Debug, Clone)]
pub enum CliCommand {
    User(CliRedditCommand),
    Search(CliRedditCommand),
    Subreddit(CliRedditCommand),
}

/// The sort category of a listing request.
#[derive(Debug, Clone, Copy, PartialEq, Eq, Structural)]
pub enum RedditCategoryFilter {
    Hot,
    New,
    Top,
    Rising,
    Controversial,
}

/// The query-string rendering of a category.
pub open spec fn category_str(c: RedditCategoryFilter) -> Seq<char> {
    match c {
        RedditCategoryFilter::Hot => "hot"@,
        RedditCategoryFilter::New => "new"@,
        RedditCategoryFilter::Top => "top"@,
        RedditCategoryFilter::Rising => "rising"@,
        RedditCategoryFilter::Controversial => "controversial"@,
    }
}

impl RedditCategoryFilter {
    /// The query-string rendering of this category.
    pub fn as_str(&self) -> (r: &'static str)
        ensures
            r@ == category_str(*self),
    {
        match self {
            RedditCategoryFilter::Hot => "hot",
            RedditCategoryFilter::New => "new",
            RedditCategoryFilter::Top => "top",
            RedditCategoryFilter::Rising => "rising",
            RedditCategoryFilter::Controversial => "controversial",
        }
    }
}

/// The timeframe of a listing request.
#[derive(Debug, Clone, Copy, PartialEq, Eq, Structural)]
pub enum RedditTimeframeFilter {
    Hour,
    Day,
    Week,
    Month,
    Year,
    All,
}

/// The query-string rendering of a timeframe.
pub open spec fn timeframe_str(t: RedditTimeframeFilter) -> Seq<char> {
    match t {
        RedditTimeframeFilter::Hour => "hour"@,
        RedditTimeframeFilter::Day => "day"@,
        RedditTimeframeFilter::Week => "week"@,
        RedditTimeframeFilter::Month => "month"@,
        RedditTimeframeFilter::Year => "year"@,
        RedditTimeframeFilter::All => "all"@,
    }
}

impl RedditTimeframeFilter {
    /// The query-string rendering of this timeframe.
    pub fn as_str(&self) -> (r: &'static str)
        ensures
            r@ == timeframe_str(*self),
    {
        match self {
            RedditTimeframeFilter::Hour => "hour",
            RedditTimeframeFilter::Day => "day",
            RedditTimeframeFilter::Week => "week",
            RedditTimeframeFilter::Month => "month",
            RedditTimeframeFilter::Year => "year",
            RedditTimeframeFilter::All => "all",
        }
    }
}

/// Resolves the effective timeframe of a request: the categories without a
/// timeframe dimension always run over `All` and ignore a provided value;
/// the others take the value the caller must provide.
pub fn resolve_timeframe(
    category: &RedditCategoryFilter,
    provided: Option<RedditTimeframeFilter>,
) -> (r: RedditTimeframeFilter)
    requires
        (*category == RedditCategoryFilter::Top || *category
            == RedditCategoryFilter::Controversial) ==> provided is Some,
    ensures
        (*category == RedditCategoryFilter::Hot || *category == RedditCategoryFilter::New
            || *category == RedditCategoryFilter::Rising) ==> r == RedditTimeframeFilter::All,
        (*category == RedditCategoryFilter::Top || *category
            == RedditCategoryFilter::Controversial) ==> Some(r) == provided,
{
    match category {
        RedditCategoryFilter::Hot => RedditTimeframeFilter::All,
        RedditCategoryFilter::New => RedditTimeframeFilter::All,
        RedditCategoryFilter::Rising => RedditTimeframeFilter::All,
        _ => provided.unwrap(),
    }
}

} // verus!
