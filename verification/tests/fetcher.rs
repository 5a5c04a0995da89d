use reddit_clawler::cli::{
    resolve_timeframe, RedditCategoryFilter, RedditTimeframeFilter,
};
use reddit_clawler::reddit::{
    apply_fetch_error, apply_fetch_success, apply_skip_success, classify_listing_status,
    filter_cached_children, gen_search_url, gen_subreddit_submitted_url, gen_user_about_url,
    gen_user_submitted_url, next_page_cursor, resolve_identity_probe, should_skip_resource,
    ListingStatusDecision, RedditProviderError,
};
use reddit_clawler::state::{
    FileCacheInfo, FileCacheItemLatest, FileCacheLatest, FileCacheVersion, LastDownloadStatus,
    ResourceStatus,
};
use reddit_clawler::submitted_response::{
    RedditSubmittedChild, RedditSubmittedChildData,
};

fn child(id: &str) -> RedditSubmittedChild {
    RedditSubmittedChild {
        kind: "t3".to_string(),
        data: RedditSubmittedChildData {
            subreddit: "pics".to_string(),
            title: format!("post {}", id),
            is_reddit_media_domain: false,
            media_only: false,
            ups: 1,
            id: id.to_string(),
            author: "someone".to_string(),
            url: "https://example.com".to_string(),
            created_utc: 1700000000,
            media: None,
            is_video: None,
            is_gallery: None,
            media_metadata: None,
            gallery_data: None,
            preview: None,
        },
    }
}

fn cache_with_ids(ids: &[&str]) -> FileCacheLatest {
    FileCacheLatest {
        version: FileCacheVersion::Latest,
        status: FileCacheInfo {
            resource: ResourceStatus::Active,
            last_download: LastDownloadStatus::Success,
        },
        files: ids
            .iter()
            .map(|id| FileCacheItemLatest {
                id: id.to_string(),
                created_utc: 1700000000,
                title: "t".to_string(),
                subreddit: "pics".to_string(),
                url: "u".to_string(),
                success: false,
                index: None,
                media_id: None,
                is_gallery: None,
            })
            .collect(),
    }
}

#[test]
fn user_listing_url_without_cursor() {
    let url = gen_user_submitted_url(
        "bob",
        None,
        &RedditCategoryFilter::Top,
        &RedditTimeframeFilter::Week,
    );
    assert_eq!(
        url,
        "https://www.reddit.com/user/bob/submitted.json?include_over_18=on&limit=top&sort=week&t=100&raw_json=1"
    );
}

#[test]
fn user_listing_url_with_cursor() {
    let url = gen_user_submitted_url(
        "bob",
        Some("t3_xyz"),
        &RedditCategoryFilter::New,
        &RedditTimeframeFilter::All,
    );
    assert_eq!(
        url,
        "https://www.reddit.com/user/bob/submitted.json?include_over_18=on&limit=new&sort=all&t=100&after=t3_xyz&raw_json=1"
    );
}

#[test]
fn subreddit_listing_url() {
    let url = gen_subreddit_submitted_url(
        "pics",
        None,
        &RedditCategoryFilter::Hot,
        &RedditTimeframeFilter::All,
    );
    assert_eq!(
        url,
        "https://www.reddit.com/r/pics/hot.json?include_over_18=on&limit=100&t=all&raw_json=1"
    );
    let url = gen_subreddit_submitted_url(
        "pics",
        Some("t3_abc"),
        &RedditCategoryFilter::Controversial,
        &RedditTimeframeFilter::Year,
    );
    assert_eq!(
        url,
        "https://www.reddit.com/r/pics/controversial.json?include_over_18=on&limit=100&t=year&after=t3_abc&raw_json=1"
    );
}

#[test]
fn search_listing_url() {
    let url = gen_search_url(
        "cats",
        None,
        &RedditCategoryFilter::New,
        &RedditTimeframeFilter::All,
    );
    assert_eq!(
        url,
        "https://www.reddit.com/search.json?q=cats&include_over_18=on&count=100&sort=new&t=all&raw_json=1"
    );
}

#[test]
fn user_about_url() {
    assert_eq!(
        gen_user_about_url("bob"),
        "https://www.reddit.com/user/bob/about.json?raw_json=1"
    );
}

#[test]
fn status_codes_classify_per_endpoint() {
    assert_eq!(classify_listing_status(200, true), ListingStatusDecision::Proceed);
    assert_eq!(classify_listing_status(429, true), ListingStatusDecision::RateLimited);
    assert_eq!(classify_listing_status(404, false), ListingStatusDecision::NotFound);
    // only the user listing resolves a denial through the identity probe
    assert_eq!(classify_listing_status(403, true), ListingStatusDecision::ProbeIdentity);
    assert_eq!(classify_listing_status(403, false), ListingStatusDecision::Forbidden);
}

#[test]
fn identity_probe_distinguishes_suspension() {
    assert_eq!(resolve_identity_probe(Some(true)), RedditProviderError::Suspended);
    assert_eq!(resolve_identity_probe(Some(false)), RedditProviderError::Forbidden);
    assert_eq!(resolve_identity_probe(None), RedditProviderError::Forbidden);
}

#[test]
fn pagination_stops_without_cursor_or_at_the_limit() {
    assert_eq!(next_page_cursor(None, 1, None), None);
    assert_eq!(next_page_cursor(Some("c".to_string()), 1, None), Some("c".to_string()));
    assert_eq!(next_page_cursor(Some("c".to_string()), 2, Some(3)), Some("c".to_string()));
    // the limit is checked only once a page already carries a cursor
    assert_eq!(next_page_cursor(Some("c".to_string()), 3, Some(3)), None);
    assert_eq!(next_page_cursor(Some("c".to_string()), 4, Some(3)), None);
}

#[test]
fn pre_filter_strips_cached_ids_only() {
    let cache = cache_with_ids(&["a", "c"]);
    let page = vec![child("a"), child("b"), child("c"), child("d")];
    let kept = filter_cached_children(page, &cache);
    let ids: Vec<&str> = kept.iter().map(|c| c.data.id.as_str()).collect();
    assert_eq!(ids, vec!["b", "d"]);

    let page = vec![child("a"), child("c")];
    let kept = filter_cached_children(page, &cache);
    assert!(kept.is_empty());
}

#[test]
fn terminal_resource_skips_unless_forced() {
    let gone = FileCacheInfo {
        resource: ResourceStatus::Deleted,
        last_download: LastDownloadStatus::Success,
    };
    let suspended = FileCacheInfo {
        resource: ResourceStatus::Suspended,
        last_download: LastDownloadStatus::Error,
    };
    let active = FileCacheInfo {
        resource: ResourceStatus::Active,
        last_download: LastDownloadStatus::Success,
    };
    assert!(should_skip_resource(gone, false));
    assert!(should_skip_resource(suspended, false));
    assert!(!should_skip_resource(active, false));
    assert!(!should_skip_resource(gone, true));
    assert!(!should_skip_resource(suspended, true));
}

#[test]
fn fetch_outcomes_write_the_right_status() {
    let mut cache = cache_with_ids(&["a"]);
    cache.status.resource = ResourceStatus::Active;

    assert!(!apply_fetch_error(&mut cache, &RedditProviderError::NotFound));
    assert_eq!(cache.status.resource, ResourceStatus::Deleted);
    assert_eq!(cache.status.last_download, LastDownloadStatus::Success);

    assert!(!apply_fetch_error(&mut cache, &RedditProviderError::Suspended));
    assert_eq!(cache.status.resource, ResourceStatus::Suspended);
    assert_eq!(cache.status.last_download, LastDownloadStatus::Success);

    assert!(apply_fetch_error(&mut cache, &RedditProviderError::TooManyRequests));
    assert_eq!(cache.status.resource, ResourceStatus::Suspended);
    assert_eq!(cache.status.last_download, LastDownloadStatus::RateLimit);

    assert!(apply_fetch_error(&mut cache, &RedditProviderError::Forbidden));
    assert_eq!(cache.status.last_download, LastDownloadStatus::Forbidden);

    assert!(apply_fetch_error(
        &mut cache,
        &RedditProviderError::Reqwest("connection reset".to_string())
    ));
    assert_eq!(cache.status.last_download, LastDownloadStatus::Error);

    apply_fetch_success(&mut cache);
    assert_eq!(cache.status.resource, ResourceStatus::Active);
    assert_eq!(cache.status.last_download, LastDownloadStatus::Success);

    cache.status.resource = ResourceStatus::Deleted;
    cache.status.last_download = LastDownloadStatus::Error;
    apply_skip_success(&mut cache);
    assert_eq!(cache.status.resource, ResourceStatus::Deleted);
    assert_eq!(cache.status.last_download, LastDownloadStatus::Success);

    // records are never touched by status transitions
    assert_eq!(cache.files.len(), 1);
}

#[test]
fn timeframe_resolution_per_category() {
    assert_eq!(
        resolve_timeframe(&RedditCategoryFilter::Hot, Some(RedditTimeframeFilter::Week)),
        RedditTimeframeFilter::All
    );
    assert_eq!(
        resolve_timeframe(&RedditCategoryFilter::New, None),
        RedditTimeframeFilter::All
    );
    assert_eq!(
        resolve_timeframe(&RedditCategoryFilter::Rising, None),
        RedditTimeframeFilter::All
    );
    assert_eq!(
        resolve_timeframe(&RedditCategoryFilter::Top, Some(RedditTimeframeFilter::Week)),
        RedditTimeframeFilter::Week
    );
    assert_eq!(
        resolve_timeframe(
            &RedditCategoryFilter::Controversial,
            Some(RedditTimeframeFilter::Hour)
        ),
        RedditTimeframeFilter::Hour
    );
}

#[test]
fn filter_strings() {
    assert_eq!(RedditCategoryFilter::Hot.as_str(), "hot");
    assert_eq!(RedditCategoryFilter::New.as_str(), "new");
    assert_eq!(RedditCategoryFilter::Top.as_str(), "top");
    assert_eq!(RedditCategoryFilter::Rising.as_str(), "rising");
    assert_eq!(RedditCategoryFilter::Controversial.as_str(), "controversial");
    assert_eq!(RedditTimeframeFilter::Hour.as_str(), "hour");
    assert_eq!(RedditTimeframeFilter::Day.as_str(), "day");
    assert_eq!(RedditTimeframeFilter::Week.as_str(), "week");
    assert_eq!(RedditTimeframeFilter::Month.as_str(), "month");
    assert_eq!(RedditTimeframeFilter::Year.as_str(), "year");
    assert_eq!(RedditTimeframeFilter::All.as_str(), "all");
}
