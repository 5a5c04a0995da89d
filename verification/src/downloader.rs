//! The download engine's decision logic: per-provider dispatch, the
//! per-unit accounting of outcomes into stats and cache, the sequential
//! heart of a run, and the counting-slot model of its bounded worker pool.
//!
//! Retrieval itself — HTTP transfers and the external download tool — is
//! outside work; a unit's observed outcome comes back as a
//! [`DownloadPostResult`] and everything the engine decides from it is
//! verified here.

use vstd::prelude::*;

use crate::reddit_parser::{RedditCrawlerPost, RedditMediaProviderType};
use crate::state::{
    opt_text, spec_is_downloaded, spec_upsert, DownloadStats, FileCacheItemLatest,
    FileCacheLatest,
};
verus! {

/// Joins the output directory and a stem with a path separator.
pub fn get_output_folder(path: &str, stem: &str) -> (r: String)
    ensures
        r@ == path@ + "/"@ + stem@,
{
    let mut r = path.to_owned();
    r.append("/");
    r.append(stem);
    r
}

/// The classified outcome of one unit of work.
#[derive(Debug, Clone, Copy, PartialEq, Eq, Structural)]
pub enum DownloadPostResult {
    /// The provider delivered a payload of this many bytes.
    ReceivedBytes(u64),
    /// The provider failed recoverably; the unit may be retried next run.
    ReceivedFailed,
    /// The platform has disowned the item; it must not be retried.
    ReceivedNotFound,
    /// The provider is intentionally unsupported; nothing happened.
    ReceivedUnhandled,
}

/// How a provider's bytes are retrieved.
#[derive(Debug, Clone, Copy, PartialEq, Eq, Structural)]
pub enum ProviderDispatch {
    /// A streaming GET of the descriptor URL.
    StreamGet,
    /// The external download tool, handed the URL and the destination path.
    ToolDownload,
    /// The external download tool with its best-format selection.
    ToolDownloadBestFormat,
    /// The token-gated provider: token, metadata lookup, then a GET.
    TokenGated,
    /// A GET whose response content type is checked for a soft deletion.
    ImgurGet,
    /// No retrieval; the unit reports `ReceivedUnhandled`.
    Unhandled,
}

/// The retrieval strategy of each provider.
pub open spec fn spec_dispatch(p: RedditMediaProviderType) -> ProviderDispatch {
    match p {
        RedditMediaProviderType::RedditImage => ProviderDispatch::StreamGet,
        RedditMediaProviderType::RedditGalleryImage => ProviderDispatch::StreamGet,
        RedditMediaProviderType::RedditGifVideo => ProviderDispatch::StreamGet,
        RedditMediaProviderType::RedditVideo => ProviderDispatch::ToolDownload,
        RedditMediaProviderType::RedgifsImage => ProviderDispatch::TokenGated,
        RedditMediaProviderType::RedgifsVideo => ProviderDispatch::TokenGated,
        RedditMediaProviderType::YoutubeVideo => ProviderDispatch::ToolDownloadBestFormat,
        RedditMediaProviderType::ImgurImage => ProviderDispatch::ImgurGet,
        RedditMediaProviderType::Unsupported => ProviderDispatch::Unhandled,
    }
}

/// Resolves the retrieval strategy of a provider.
pub fn dispatch_provider(p: &RedditMediaProviderType) -> (d: ProviderDispatch)
    ensures
        d == spec_dispatch(*p),
{
    match p {
        RedditMediaProviderType::RedditImage => ProviderDispatch::StreamGet,
        RedditMediaProviderType::RedditGalleryImage => ProviderDispatch::StreamGet,
        RedditMediaProviderType::RedditGifVideo => ProviderDispatch::StreamGet,
        RedditMediaProviderType::RedditVideo => ProviderDispatch::ToolDownload,
        RedditMediaProviderType::RedgifsImage => ProviderDispatch::TokenGated,
        RedditMediaProviderType::RedgifsVideo => ProviderDispatch::TokenGated,
        RedditMediaProviderType::YoutubeVideo => ProviderDispatch::ToolDownloadBestFormat,
        RedditMediaProviderType::ImgurImage => ProviderDispatch::ImgurGet,
        RedditMediaProviderType::Unsupported => ProviderDispatch::Unhandled,
    }
}

/// Whether a GET against the third-party image host signals a soft
/// deletion: an HTML content type where binary was expected.
pub fn imgur_response_not_found(content_type: &Option<String>) -> (r: bool)
    ensures
        r == (content_type matches Some(ct) && ct@ == "text/html"@),
{
    match content_type {
        Some(ct) => crate::text::str_eq(ct.as_str(), "text/html"),
        None => false,
    }
}

/// The arguments of an external-tool download: the source URL and the
/// destination path.
pub fn tool_download_args(url: &String, file_path: &String) -> (r: Vec<String>)
    ensures
        r.deep_view() =~= seq![url@, "-o"@, file_path@],
{
    let mut r: Vec<String> = Vec::new();
    r.push(url.clone());
    r.push("-o".to_owned());
    r.push(file_path.clone());
    r
}

/// The arguments of an external-tool download with best-format selection.
pub fn tool_download_best_format_args(url: &String, file_path: &String) -> (r: Vec<String>)
    ensures
        r.deep_view() =~= seq![
            url@,
            "-f"@,
            "bestvideo[ext=mp4]+bestaudio[ext=m4a]/best[ext=mp4]/best"@,
            "-o"@,
            file_path@,
        ],
{
    let mut r: Vec<String> = Vec::new();
    r.push(url.clone());
    r.push("-f".to_owned());
    r.push("bestvideo[ext=mp4]+bestaudio[ext=m4a]/best[ext=mp4]/best".to_owned());
    r.push("-o".to_owned());
    r.push(file_path.clone());
    r
}

/// The completion record a descriptor writes: its composite key, its source
/// fields, and the unit's outcome.
pub open spec fn entry_of(post: RedditCrawlerPost, success: bool) -> FileCacheItemLatest {
    FileCacheItemLatest {
        id: post.id,
        created_utc: post.created_utc,
        title: post.title,
        subreddit: post.subreddit,
        url: post.url,
        success: success,
        index: post.index,
        media_id: post.media_id,
        is_gallery: post.is_gallery,
    }
}

/// Builds the completion record of a descriptor with the given outcome.
pub fn cache_entry_for(post: &RedditCrawlerPost, success: bool) -> (e: FileCacheItemLatest)
    ensures
        e == entry_of(*post, success),
{
    FileCacheItemLatest {
        id: post.id.clone(),
        created_utc: post.created_utc,
        title: post.title.clone(),
        subreddit: post.subreddit.clone(),
        url: post.url.clone(),
        success: success,
        index: post.index,
        media_id: match &post.media_id {
            Some(m) => Some(m.clone()),
            None => None,
        },
        is_gallery: post.is_gallery,
    }
}

/// The bytes an outcome delivered.
pub open spec fn bytes_of(r: DownloadPostResult) -> int {
    match r {
        DownloadPostResult::ReceivedBytes(n) => n as int,
        _ => 0,
    }
}

/// The stats after one unit's outcome is accounted: a payload counts one
/// file and its bytes; a disowned or failed unit counts one failure; an
/// unhandled unit counts nothing.
pub open spec fn stats_after(s: DownloadStats, r: DownloadPostResult) -> DownloadStats {
    match r {
        DownloadPostResult::ReceivedBytes(n) => DownloadStats {
            downloads_failed: s.downloads_failed,
            bytes_downloaded: (s.bytes_downloaded + n) as u64,
            files_downloaded: (s.files_downloaded + 1) as u64,
        },
        DownloadPostResult::ReceivedNotFound => DownloadStats {
            downloads_failed: (s.downloads_failed + 1) as u64,
            bytes_downloaded: s.bytes_downloaded,
            files_downloaded: s.files_downloaded,
        },
        DownloadPostResult::ReceivedFailed => DownloadStats {
            downloads_failed: (s.downloads_failed + 1) as u64,
            bytes_downloaded: s.bytes_downloaded,
            files_downloaded: s.files_downloaded,
        },
        DownloadPostResult::ReceivedUnhandled => s,
    }
}

/// The cache records after one unit's outcome: a payload upserts a success
/// record, a disowned unit upserts a failure record so it is not retried, a
/// failed or unhandled unit writes nothing.
pub open spec fn cache_files_after(
    files: Seq<FileCacheItemLatest>,
    post: RedditCrawlerPost,
    r: DownloadPostResult,
) -> Seq<FileCacheItemLatest> {
    match r {
        DownloadPostResult::ReceivedBytes(_) => spec_upsert(files, entry_of(post, true)),
        DownloadPostResult::ReceivedNotFound => spec_upsert(files, entry_of(post, false)),
        DownloadPostResult::ReceivedFailed => files,
        DownloadPostResult::ReceivedUnhandled => files,
    }
}

/// Accounts one unit's outcome into the run's stats and the cache, under
/// the exclusive access the engine serializes around both.
pub fn apply_download_result(
    stats: &mut DownloadStats,
    cache: &mut FileCacheLatest,
    post: &RedditCrawlerPost,
    result: DownloadPostResult,
)
    requires
        old(stats).files_downloaded < u64::MAX,
        old(stats).downloads_failed < u64::MAX,
        old(stats).bytes_downloaded + bytes_of(result) <= u64::MAX,
    ensures
        *final(stats) == stats_after(*old(stats), result),
        final(cache).files@ == cache_files_after(old(cache).files@, *post, result),
        final(cache).version == old(cache).version,
        final(cache).status == old(cache).status,
{
    match result {
        DownloadPostResult::ReceivedBytes(n) => {
            stats.files_downloaded = stats.files_downloaded + 1;
            stats.bytes_downloaded = stats.bytes_downloaded + n;
            let entry = cache_entry_for(post, true);
            cache.upsert(entry);
        },
        DownloadPostResult::ReceivedNotFound => {
            let entry = cache_entry_for(post, false);
            cache.upsert(entry);
            stats.downloads_failed = stats.downloads_failed + 1;
        },
        DownloadPostResult::ReceivedFailed => {
            stats.downloads_failed = stats.downloads_failed + 1;
        },
        DownloadPostResult::ReceivedUnhandled => {},
    }
}

/// Fresh stats: nothing downloaded, nothing failed.
pub open spec fn zero_stats() -> DownloadStats {
    DownloadStats { downloads_failed: 0, bytes_downloaded: 0, files_downloaded: 0 }
}

/// The run's state after its first `n` units: stats, cache records, and the
/// counts of skipped and unhandled units.
pub struct EngineRun {
    pub stats: DownloadStats,
    pub files: Seq<FileCacheItemLatest>,
    pub skipped: int,
    pub unhandled: int,
}

/// The engine after its first `n` units: each unit is skipped when the
/// cache, as it stands at that unit's turn, already records its key as
/// successfully downloaded; otherwise its outcome is accounted.
pub open spec fn engine_upto(
    posts: Seq<RedditCrawlerPost>,
    outcomes: Seq<DownloadPostResult>,
    files0: Seq<FileCacheItemLatest>,
    n: int,
) -> EngineRun
    decreases n
{
    if n <= 0 {
        EngineRun { stats: zero_stats(), files: files0, skipped: 0, unhandled: 0 }
    } else {
        let prev = engine_upto(posts, outcomes, files0, n - 1);
        let p = posts[n - 1];
        if spec_is_downloaded(prev.files, p.id@, p.index, opt_text(p.media_id)) {
            EngineRun {
                stats: prev.stats,
                files: prev.files,
                skipped: prev.skipped + 1,
                unhandled: prev.unhandled,
            }
        } else {
            EngineRun {
                stats: stats_after(prev.stats, outcomes[n - 1]),
                files: cache_files_after(prev.files, p, outcomes[n - 1]),
                skipped: prev.skipped,
                unhandled: prev.unhandled + if outcomes[n - 1] is ReceivedUnhandled {
                    1int
                } else {
                    0int
                },
            }
        }
    }
}

/// The bytes delivered by the first `n` outcomes together.
pub open spec fn total_bytes_upto(outcomes: Seq<DownloadPostResult>, n: int) -> int
    decreases n
{
    if n <= 0 {
        0
    } else {
        total_bytes_upto(outcomes, n - 1) + bytes_of(outcomes[n - 1])
    }
}

/// The byte total over a prefix never exceeds the total over a longer one.
proof fn lemma_total_bytes_monotone(outcomes: Seq<DownloadPostResult>, i: int, j: int)
    requires
        i <= j,
    ensures
        total_bytes_upto(outcomes, i) <= total_bytes_upto(outcomes, j),
    decreases j - i,
{
    if i < j {
        lemma_total_bytes_monotone(outcomes, i, j - 1);
    }
}

/// The engine's accounting identity over its first `n` units: files
/// downloaded, failures (disowned and failed units), unhandled units and
/// skipped units together account for every unit exactly once.
pub proof fn lemma_engine_accounting(
    posts: Seq<RedditCrawlerPost>,
    outcomes: Seq<DownloadPostResult>,
    files0: Seq<FileCacheItemLatest>,
    n: int,
)
    requires
        0 <= n <= u64::MAX,
    ensures
        engine_upto(posts, outcomes, files0, n).stats.files_downloaded + engine_upto(
            posts,
            outcomes,
            files0,
            n,
        ).stats.downloads_failed + engine_upto(posts, outcomes, files0, n).unhandled + engine_upto(
            posts,
            outcomes,
            files0,
            n,
        ).skipped == n,
        engine_upto(posts, outcomes, files0, n).stats.files_downloaded <= n,
        engine_upto(posts, outcomes, files0, n).stats.downloads_failed <= n,
        0 <= engine_upto(posts, outcomes, files0, n).unhandled,
        0 <= engine_upto(posts, outcomes, files0, n).skipped,
    decreases n,
{
    if n > 0 {
        lemma_engine_accounting(posts, outcomes, files0, n - 1);
    }
}

/// Runs every unit in turn: a unit whose composite key the cache already
/// records as successfully downloaded is skipped; every other unit's
/// outcome is accounted into the stats and the cache. Returns the run's
/// final stats.
pub fn run_engine(
    posts: &Vec<RedditCrawlerPost>,
    outcomes: &Vec<DownloadPostResult>,
    cache: &mut FileCacheLatest,
) -> (stats: DownloadStats)
    requires
        posts@.len() == outcomes@.len(),
        posts@.len() < u64::MAX,
        total_bytes_upto(outcomes@, outcomes@.len() as int) <= u64::MAX,
    ensures
        stats == engine_upto(posts@, outcomes@, old(cache).files@, posts@.len() as int).stats,
        final(cache).files@ == engine_upto(
            posts@,
            outcomes@,
            old(cache).files@,
            posts@.len() as int,
        ).files,
        final(cache).version == old(cache).version,
        final(cache).status == old(cache).status,
{
    let mut stats = DownloadStats::default();
    let n = posts.len();
    let mut i: usize = 0;
    while i < n
        invariant
            n == posts@.len(),
            outcomes@.len() == n,
            n < u64::MAX,
            total_bytes_upto(outcomes@, n as int) <= u64::MAX,
            0 <= i <= n,
            stats == engine_upto(posts@, outcomes@, old(cache).files@, i as int).stats,
            cache.files@ == engine_upto(posts@, outcomes@, old(cache).files@, i as int).files,
            cache.version == old(cache).version,
            cache.status == old(cache).status,
            stats.files_downloaded + stats.downloads_failed <= i,
            stats.bytes_downloaded <= total_bytes_upto(outcomes@, i as int),
        decreases n - i,
    {
        let p = &posts[i];
        if !cache.is_downloaded(p.id.as_str(), p.index, &p.media_id) {
            proof {
                lemma_total_bytes_monotone(outcomes@, i + 1, n as int);
            }
            apply_download_result(&mut stats, cache, p, outcomes[i]);
        }
        i = i + 1;
    }
    stats
}

/// One slot-pool event: a unit acquiring its slot or releasing it.
#[derive(Debug, Clone, Copy, PartialEq, Eq, Structural)]
pub enum PoolEvent {
    Acquire,
    Release,
}

/// How many units hold a slot after a sequence of events against a pool of
/// `limit` slots: an acquire takes effect only while a slot is free — a
/// unit at a full pool waits — and a release frees one.
pub open spec fn active_after(events: Seq<PoolEvent>, limit: int) -> int
    decreases events.len()
{
    if events.len() == 0 {
        0
    } else {
        let prev = active_after(events.drop_last(), limit);
        match events.last() {
            PoolEvent::Acquire => if prev < limit {
                prev + 1
            } else {
                prev
            },
            PoolEvent::Release => if prev > 0 {
                prev - 1
            } else {
                prev
            },
        }
    }
}

/// The pool never exceeds its limit: after any sequence of acquire and
/// release events against a pool of `limit >= 1` slots, the number of
/// concurrently active units lies between zero and the limit.
pub proof fn lemma_pool_never_exceeds_limit(events: Seq<PoolEvent>, limit: int)
    requires
        limit >= 1,
    ensures
        0 <= active_after(events, limit) <= limit,
    decreases events.len(),
{
    if events.len() > 0 {
        lemma_pool_never_exceeds_limit(events.drop_last(), limit);
    }
}

/// The fixed pool of execution slots that bounds the engine's concurrency.
/// A unit acquires exactly one slot before starting and releases it
/// unconditionally on completion.
#[derive(Debug, Clone, Copy, PartialEq, Eq, Structural)]
pub struct DownloadSlots {
    pub limit: usize,
    pub in_use: usize,
}

/// A well-formed pool: at least one slot, and never more in use than exist.
pub open spec fn slots_wf(s: DownloadSlots) -> bool {
    1 <= s.limit && s.in_use <= s.limit
}

impl DownloadSlots {
    /// A pool of `limit` free slots.
    pub fn new(limit: usize) -> (s: Self)
        requires
            limit >= 1,
        ensures
            slots_wf(s),
            s.limit == limit,
            s.in_use == 0,
    {
        DownloadSlots { limit: limit, in_use: 0 }
    }

    /// Takes a slot when one is free; reports whether one was taken. A unit
    /// refused here must wait and try again.
    pub fn try_acquire(&mut self) -> (got: bool)
        requires
            slots_wf(*old(self)),
        ensures
            slots_wf(*final(self)),
            final(self).limit == old(self).limit,
            got ==> old(self).in_use < old(self).limit && final(self).in_use == old(
                self,
            ).in_use + 1,
            !got ==> *final(self) == *old(self) && old(self).in_use == old(self).limit,
    {
        if self.in_use < self.limit {
            self.in_use = self.in_use + 1;
            true
        } else {
            false
        }
    }

    /// Returns a held slot to the pool.
    pub fn release(&mut self)
        requires
            slots_wf(*old(self)),
            old(self).in_use >= 1,
        ensures
            slots_wf(*final(self)),
            final(self).limit == old(self).limit,
            final(self).in_use == old(self).in_use - 1,
    {
        self.in_use = self.in_use - 1;
    }
}

} // verus!
