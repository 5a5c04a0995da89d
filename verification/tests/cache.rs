use reddit_clawler::state::{
    migrate_document, FileCacheDocument, FileCacheError, FileCacheInfo, FileCacheItemLatest,
    FileCacheItemV1, FileCacheLatest, FileCacheV1, FileCacheVersion, LastDownloadStatus,
    ResourceStatus, SharedState,
};

fn entry(id: &str, index: Option<usize>, media_id: Option<&str>, success: bool)
    -> FileCacheItemLatest {
    FileCacheItemLatest {
        id: id.to_string(),
        created_utc: 1700000000,
        title: format!("title {}", id),
        subreddit: "pics".to_string(),
        url: format!("https://i.redd.it/{}.jpg", id),
        success,
        index,
        media_id: media_id.map(|m| m.to_string()),
        is_gallery: index.map(|_| true),
    }
}

fn empty_cache() -> FileCacheLatest {
    FileCacheLatest {
        version: FileCacheVersion::Latest,
        status: FileCacheInfo {
            resource: ResourceStatus::Active,
            last_download: LastDownloadStatus::Success,
        },
        files: vec![],
    }
}

#[test]
fn version_tags_round_trip() {
    assert_eq!(FileCacheVersion::V1.as_int(), 1);
    assert_eq!(FileCacheVersion::Latest.as_int(), 2);
    assert_eq!(FileCacheVersion::from_int(1), Ok(FileCacheVersion::V1));
    assert_eq!(FileCacheVersion::from_int(2), Ok(FileCacheVersion::Latest));
    assert_eq!(FileCacheVersion::from_int(3), Err(FileCacheError::Version));
    assert_eq!(FileCacheVersion::from_int(0), Err(FileCacheError::Version));
    assert_eq!(FileCacheVersion::default(), FileCacheVersion::Latest);
}

#[test]
fn migration_carries_v1_forward_with_defaults() {
    let v1 = FileCacheV1 {
        version: FileCacheVersion::V1,
        files: vec![FileCacheItemV1 {
            id: "abc".to_string(),
            created_utc: 1650000000,
            title: "old title".to_string(),
            subreddit: "pics".to_string(),
            url: "https://i.redd.it/abc.jpg".to_string(),
            success: true,
            index: Some(1),
        }],
    };
    let migrated = migrate_document(FileCacheDocument::V1(v1));
    assert_eq!(migrated.version, FileCacheVersion::Latest);
    assert_eq!(migrated.status.resource, ResourceStatus::Active);
    assert_eq!(migrated.status.last_download, LastDownloadStatus::Success);
    assert_eq!(migrated.files.len(), 1);
    assert_eq!(migrated.files[0].id, "abc");
    assert_eq!(migrated.files[0].created_utc, 1650000000);
    assert_eq!(migrated.files[0].title, "old title");
    assert_eq!(migrated.files[0].subreddit, "pics");
    assert_eq!(migrated.files[0].url, "https://i.redd.it/abc.jpg");
    assert!(migrated.files[0].success);
    assert_eq!(migrated.files[0].index, Some(1));
    assert_eq!(migrated.files[0].media_id, None);
    assert_eq!(migrated.files[0].is_gallery, None);
}

#[test]
fn migration_is_idempotent_on_a_v1_payload() {
    let v1 = FileCacheV1 {
        version: FileCacheVersion::V1,
        files: vec![FileCacheItemV1 {
            id: "abc".to_string(),
            created_utc: 1650000000,
            title: "old title".to_string(),
            subreddit: "pics".to_string(),
            url: "https://i.redd.it/abc.jpg".to_string(),
            success: false,
            index: None,
        }],
    };
    let once = migrate_document(FileCacheDocument::V1(v1));
    let twice = migrate_document(FileCacheDocument::Latest(once.clone()));
    assert_eq!(once, twice);
}

#[test]
fn migration_leaves_latest_untouched() {
    let mut cache = empty_cache();
    cache.status.resource = ResourceStatus::Suspended;
    cache.files.push(entry("abc", None, None, true));
    let migrated = migrate_document(FileCacheDocument::Latest(cache.clone()));
    assert_eq!(cache, migrated);
}

#[test]
fn upsert_appends_a_new_key() {
    let mut cache = empty_cache();
    cache.upsert(entry("a", None, None, true));
    cache.upsert(entry("b", None, None, false));
    assert_eq!(cache.files.len(), 2);
    cache.upsert(entry("a", Some(0), None, true));
    assert_eq!(cache.files.len(), 3);
    cache.upsert(entry("a", Some(0), Some("m1"), true));
    assert_eq!(cache.files.len(), 4);
}

#[test]
fn upsert_overwrites_an_existing_key_in_place() {
    let mut cache = empty_cache();
    cache.upsert(entry("a", Some(2), Some("m2"), true));
    cache.upsert(entry("b", None, None, true));
    let mut replacement = entry("a", Some(2), Some("m2"), false);
    replacement.title = "new title".to_string();
    cache.upsert(replacement);
    assert_eq!(cache.files.len(), 2);
    // the last write wins, a failure over a prior success included
    assert!(!cache.files[0].success);
    assert_eq!(cache.files[0].title, "new title");
    assert_eq!(cache.files[0].id, "a");
    assert_eq!(cache.files[1].id, "b");
}

#[test]
fn absent_media_id_matches_only_absent() {
    let mut cache = empty_cache();
    cache.upsert(entry("a", None, None, true));
    cache.upsert(entry("a", None, Some("m1"), false));
    assert_eq!(cache.files.len(), 2);
    assert!(cache.is_downloaded("a", None, &None));
    assert!(!cache.is_downloaded("a", None, &Some("m1".to_string())));
}

#[test]
fn is_downloaded_requires_success_and_full_key() {
    let mut cache = empty_cache();
    cache.upsert(entry("ok", Some(1), Some("m1"), true));
    cache.upsert(entry("failed", None, None, false));

    assert!(cache.is_downloaded("ok", Some(1), &Some("m1".to_string())));
    assert!(!cache.is_downloaded("ok", Some(2), &Some("m1".to_string())));
    assert!(!cache.is_downloaded("ok", None, &Some("m1".to_string())));
    assert!(!cache.is_downloaded("ok", Some(1), &None));
    assert!(!cache.is_downloaded("failed", None, &None));
    assert!(!cache.is_downloaded("unknown", None, &None));
}

#[test]
fn contains_id_ignores_outcome_and_key_details() {
    let mut cache = empty_cache();
    cache.upsert(entry("ok", Some(1), Some("m1"), true));
    cache.upsert(entry("failed", None, None, false));
    assert!(cache.contains_id("ok"));
    assert!(cache.contains_id("failed"));
    assert!(!cache.contains_id("unknown"));
}

#[test]
fn shared_state_starts_empty() {
    let state = SharedState::default();
    assert!(state.redgifs_token.is_none());
    assert!(state.file_cache_path.is_none());
    assert_eq!(state.file_cache.version, FileCacheVersion::Latest);
    assert_eq!(state.file_cache.status.resource, ResourceStatus::Active);
    assert!(state.file_cache.files.is_empty());
}
