//! Run statistics and the schema-versioned download cache.
//!
//! The cache is a ledger of completion records keyed by the composite key
//! (post id, gallery index, media id); an absent media id matches only other
//! absent media ids. It carries a schema version and is migrated forward,
//! version by version, to the latest schema when loaded.

use vstd::prelude::*;

use crate::text::str_eq;

verus! {

/// Counters collected over one download run.
pub struct DownloadStats {
    pub downloads_failed: u64,
    pub bytes_downloaded: u64,
    pub files_downloaded: u64,
}

impl Default for DownloadStats {
    fn default() -> (s: Self)
        ensures
            s.downloads_failed == 0,
            s.bytes_downloaded == 0,
            s.files_downloaded == 0,
    {
        Self { downloads_failed: 0, bytes_downloaded: 0, files_downloaded: 0 }
    }
}

/// A supported cache schema version.
#[derive(Debug, Clone, Copy, PartialEq, Eq, Structural)]
pub enum FileCacheVersion {
    V1,
    Latest,
}

/// The integer tag a version is stored under.
pub open spec fn version_tag(v: FileCacheVersion) -> int {
    match v {
        FileCacheVersion::V1 => 1,
        FileCacheVersion::Latest => 2,
    }
}

impl FileCacheVersion {
    /// The integer tag this version is stored under.
    pub fn as_int(&self) -> (r: i64)
        ensures
            r == version_tag(*self),
    {
        match self {
            FileCacheVersion::V1 => 1,
            FileCacheVersion::Latest => 2,
        }
    }

    /// Reads a version from its integer tag. An unknown tag is fatal: no
    /// migration can start from it.
    pub fn from_int(tag: i64) -> (r: Result<FileCacheVersion, FileCacheError>)
        ensures
            tag == 1 ==> r == Ok::<FileCacheVersion, FileCacheError>(FileCacheVersion::V1),
            tag == 2 ==> r == Ok::<FileCacheVersion, FileCacheError>(FileCacheVersion::Latest),
            tag != 1 && tag != 2 ==> r == Err::<FileCacheVersion, FileCacheError>(
                FileCacheError::Version,
            ),
    {
        if tag == 1 {
            Ok(FileCacheVersion::V1)
        } else if tag == 2 {
            Ok(FileCacheVersion::Latest)
        } else {
            Err(FileCacheError::Version)
        }
    }
}

impl Default for FileCacheVersion {
    fn default() -> (v: Self)
        ensures
            v == FileCacheVersion::Latest,
    {
        FileCacheVersion::Latest
    }
}

/// The version tag of a cache file, read before any other field.
#[derive(Debug, Clone, Copy, PartialEq, Eq, Structural)]
pub struct BaseFileCache {
    pub version: FileCacheVersion,
}

/// Whether the upstream resource (the author or community) still exists.
/// `Deleted` and `Suspended` are terminal unless a caller forces a retry.
#[derive(Debug, Clone, Copy, PartialEq, Eq, Structural)]
pub enum ResourceStatus {
    Active,
    Deleted,
    Suspended,
}

impl Default for ResourceStatus {
    fn default() -> (s: Self)
        ensures
            s == ResourceStatus::Active,
    {
        ResourceStatus::Active
    }
}

/// The outcome of the most recent fetch attempt, reset on every run.
#[derive(Debug, Clone, Copy, PartialEq, Eq, Structural)]
pub enum LastDownloadStatus {
    Success,
    RateLimit,
    Forbidden,
    Error,
}

impl Default for LastDownloadStatus {
    fn default() -> (s: Self)
        ensures
            s == LastDownloadStatus::Success,
    {
        LastDownloadStatus::Success
    }
}

/// The status block of a cache: the resource's fate and the last run's
/// outcome.
#[derive(Debug, Clone, Copy, PartialEq, Eq, Structural)]
pub struct FileCacheInfo {
    pub resource: ResourceStatus,
    pub last_download: LastDownloadStatus,
}

impl Default for FileCacheInfo {
    fn default() -> (s: Self)
        ensures
            s.resource == ResourceStatus::Active,
            s.last_download == LastDownloadStatus::Success,
    {
        FileCacheInfo { resource: ResourceStatus::Active, last_download: LastDownloadStatus::Success }
    }
}

/// One completion record of the latest schema.
#[derive(Debug, Clone, PartialEq, Eq)]
pub struct FileCacheItemLatest {
    pub id: String,
    pub created_utc: i64,
    pub title: String,
    pub subreddit: String,
    pub url: String,
    pub success: bool,
    pub index: Option<usize>,
    pub media_id: Option<String>,
    pub is_gallery: Option<bool>,
}

/// One completion record of the first schema: no media id and no gallery
/// marker yet.
#[derive(Debug, Clone, PartialEq, Eq)]
pub struct FileCacheItemV1 {
    pub id: String,
    pub created_utc: i64,
    pub title: String,
    pub subreddit: String,
    pub url: String,
    pub success: bool,
    pub index: Option<usize>,
}

/// A cache of the first schema: a version tag and records, no status block.
#[derive(Debug, Clone, PartialEq, Eq)]
pub struct FileCacheV1 {
    pub version: FileCacheVersion,
    pub files: Vec<FileCacheItemV1>,
}

/// A cache of the latest schema.
#[derive(Debug, Clone, PartialEq, Eq)]
pub struct FileCacheLatest {
    pub version: FileCacheVersion,
    pub status: FileCacheInfo,
    pub files: Vec<FileCacheItemLatest>,
}

/// A parsed cache file at whichever schema version it was written under.
#[derive(Debug, Clone, PartialEq, Eq)]
pub enum FileCacheDocument {
    V1(FileCacheV1),
    Latest(FileCacheLatest),
}

/// The failures of loading a cache file.
#[derive(Debug, Clone, PartialEq, Eq)]
pub enum FileCacheError {
    SerdeJson(String),
    Version,
    Upgrade,
}

/// The mathematical image of a latest-schema cache: its records as a
/// sequence.
pub struct CacheView {
    pub version: FileCacheVersion,
    pub status: FileCacheInfo,
    pub files: Seq<FileCacheItemLatest>,
}

impl View for FileCacheLatest {
    type V = CacheView;

    open spec fn view(&self) -> CacheView {
        CacheView { version: self.version, status: self.status, files: self.files@ }
    }
}

/// The mathematical image of a first-schema cache.
pub struct CacheV1View {
    pub version: FileCacheVersion,
    pub files: Seq<FileCacheItemV1>,
}

impl View for FileCacheV1 {
    type V = CacheV1View;

    open spec fn view(&self) -> CacheV1View {
        CacheV1View { version: self.version, files: self.files@ }
    }
}

/// The mathematical image of a parsed cache file.
pub enum CacheDocumentView {
    V1(CacheV1View),
    Latest(CacheView),
}

impl View for FileCacheDocument {
    type V = CacheDocumentView;

    open spec fn view(&self) -> CacheDocumentView {
        match self {
            FileCacheDocument::V1(c) => CacheDocumentView::V1(c@),
            FileCacheDocument::Latest(c) => CacheDocumentView::Latest(c@),
        }
    }
}

/// A first-schema record carried into the latest schema: every existing
/// field kept, the added fields defaulted to absent.
pub open spec fn migrated_item_v1(e: FileCacheItemV1) -> FileCacheItemLatest {
    FileCacheItemLatest {
        id: e.id,
        created_utc: e.created_utc,
        title: e.title,
        subreddit: e.subreddit,
        url: e.url,
        success: e.success,
        index: e.index,
        media_id: None,
        is_gallery: None,
    }
}

/// One step of the migration chain: a first-schema cache carried to the
/// latest schema, with the added status block defaulted to an active
/// resource and a successful last run.
pub open spec fn migrated_v1(c: CacheV1View) -> CacheView {
    CacheView {
        version: FileCacheVersion::Latest,
        status: FileCacheInfo {
            resource: ResourceStatus::Active,
            last_download: LastDownloadStatus::Success,
        },
        files: c.files.map_values(|e: FileCacheItemV1| migrated_item_v1(e)),
    }
}

/// The full migration: every step of the chain applied in order until the
/// version tag reads latest; a latest-schema cache is left untouched.
pub open spec fn spec_migrate(doc: CacheDocumentView) -> CacheView {
    match doc {
        CacheDocumentView::V1(c) => migrated_v1(c),
        CacheDocumentView::Latest(c) => c,
    }
}

/// How many migration steps a document still needs.
pub open spec fn migration_distance(doc: CacheDocumentView) -> int {
    match doc {
        CacheDocumentView::V1(_) => 1,
        CacheDocumentView::Latest(_) => 0,
    }
}

/// Migration is idempotent: feeding an already-migrated cache back through
/// the migration returns it unchanged, for a payload at any supported
/// version.
pub proof fn lemma_migrate_idempotent(doc: CacheDocumentView)
    ensures
        spec_migrate(CacheDocumentView::Latest(spec_migrate(doc))) == spec_migrate(doc),
{
}

/// Migration is chain-complete: a first-schema payload, once migrated,
/// meets every field requirement of the latest schema — a latest version
/// tag, a defaulted status block, and every record carried over with the
/// added fields defaulted.
pub proof fn lemma_migrate_v1_complete(doc: CacheDocumentView)
    requires
        doc is V1,
    ensures
        spec_migrate(doc).version == FileCacheVersion::Latest,
        spec_migrate(doc).status.resource == ResourceStatus::Active,
        spec_migrate(doc).status.last_download == LastDownloadStatus::Success,
        spec_migrate(doc).files.len() == doc->V1_0.files.len(),
        forall|i: int|
            0 <= i < doc->V1_0.files.len() ==> #[trigger] spec_migrate(doc).files[i]
                == migrated_item_v1(doc->V1_0.files[i]),
{
}

/// Carries a first-schema cache to the latest schema.
pub fn migrate_v1(c: FileCacheV1) -> (r: FileCacheLatest)
    ensures
        r@ == migrated_v1(c@),
{
    let mut files: Vec<FileCacheItemLatest> = Vec::new();
    let n = c.files.len();
    let mut i: usize = 0;
    while i < n
        invariant
            n == c.files@.len(),
            0 <= i <= n,
            files@ =~= c.files@.take(i as int).map_values(
                |e: FileCacheItemV1| migrated_item_v1(e),
            ),
        decreases n - i,
    {
        let e = &c.files[i];
        files.push(FileCacheItemLatest {
            id: e.id.clone(),
            created_utc: e.created_utc,
            title: e.title.clone(),
            subreddit: e.subreddit.clone(),
            url: e.url.clone(),
            success: e.success,
            index: e.index,
            media_id: None,
            is_gallery: None,
        });
        i = i + 1;
        assert(files@ =~= c.files@.take(i as int).map_values(
            |e: FileCacheItemV1| migrated_item_v1(e),
        ));
    }
    proof {
        assert(c.files@.take(n as int) =~= c.files@);
    }
    let r = FileCacheLatest {
        version: FileCacheVersion::Latest,
        status: FileCacheInfo {
            resource: ResourceStatus::Active,
            last_download: LastDownloadStatus::Success,
        },
        files: files,
    };
    proof {
        assert(r@.files =~= migrated_v1(c@).files);
    }
    r
}

/// Runs the migration chain on a parsed cache file until its version tag
/// reads latest.
pub fn migrate_document(doc: FileCacheDocument) -> (r: FileCacheLatest)
    ensures
        r@ == spec_migrate(doc@),
{
    let mut current = doc;
    loop
        invariant
            spec_migrate(current@) == spec_migrate(doc@),
        decreases migration_distance(current@),
    {
        match current {
            FileCacheDocument::Latest(c) => {
                return c;
            },
            FileCacheDocument::V1(c) => {
                current = FileCacheDocument::Latest(migrate_v1(c));
            },
        }
    }
}

/// The view of an optional text field.
pub open spec fn opt_text(o: Option<String>) -> Option<Seq<char>> {
    match o {
        Some(s) => Some(s@),
        None => None,
    }
}

/// Two records share the composite key (id, gallery index, media id); an
/// absent media id matches only other absent media ids.
pub open spec fn same_key(a: FileCacheItemLatest, b: FileCacheItemLatest) -> bool {
    a.id@ == b.id@ && a.index == b.index && opt_text(a.media_id) == opt_text(b.media_id)
}

/// A record carries the given composite key.
pub open spec fn entry_matches(
    e: FileCacheItemLatest,
    id: Seq<char>,
    index: Option<usize>,
    media_id: Option<Seq<char>>,
) -> bool {
    e.id@ == id && e.index == index && opt_text(e.media_id) == media_id
}

/// No two records share a composite key.
pub open spec fn entries_unique(files: Seq<FileCacheItemLatest>) -> bool {
    forall|i: int, j: int|
        0 <= i < j < files.len() ==> !same_key(#[trigger] files[i], #[trigger] files[j])
}

/// The first position `>= i` holding a record with `entry`'s composite key.
pub open spec fn key_match_from(
    files: Seq<FileCacheItemLatest>,
    entry: FileCacheItemLatest,
    i: int,
) -> Option<int>
    decreases files.len() + 1 - i when 0 <= i
{
    if i >= files.len() {
        None
    } else if same_key(files[i], entry) {
        Some(i)
    } else {
        key_match_from(files, entry, i + 1)
    }
}

/// The position of the record sharing `entry`'s composite key, if any.
pub open spec fn first_key_match(
    files: Seq<FileCacheItemLatest>,
    entry: FileCacheItemLatest,
) -> Option<int> {
    key_match_from(files, entry, 0)
}

/// What `upsert` leaves in the cache: the record under `entry`'s composite
/// key overwritten in place when one exists, `entry` appended otherwise. The
/// incoming record always wins, whatever the stored one held.
pub open spec fn spec_upsert(
    files: Seq<FileCacheItemLatest>,
    entry: FileCacheItemLatest,
) -> Seq<FileCacheItemLatest> {
    match first_key_match(files, entry) {
        Some(i) => files.update(i, entry),
        None => files.push(entry),
    }
}

/// A record with matching composite key and a successful outcome exists.
pub open spec fn spec_is_downloaded(
    files: Seq<FileCacheItemLatest>,
    id: Seq<char>,
    index: Option<usize>,
    media_id: Option<Seq<char>>,
) -> bool {
    exists|i: int|
        0 <= i < files.len() && entry_matches(#[trigger] files[i], id, index, media_id)
            && files[i].success
}

/// A record with the given post id exists, whatever its outcome.
pub open spec fn spec_has_id(files: Seq<FileCacheItemLatest>, id: Seq<char>) -> bool {
    exists|i: int| 0 <= i < files.len() && (#[trigger] files[i]).id@ == id
}

/// Every position a None answer of `key_match_from` ruled out really holds
/// no record with `entry`'s key.
proof fn lemma_key_match_from_none(
    files: Seq<FileCacheItemLatest>,
    entry: FileCacheItemLatest,
    i: int,
)
    requires
        0 <= i,
        key_match_from(files, entry, i) is None,
    ensures
        forall|j: int| i <= j < files.len() ==> !same_key(#[trigger] files[j], entry),
    decreases files.len() + 1 - i,
{
    if i < files.len() {
        lemma_key_match_from_none(files, entry, i + 1);
    }
}

/// A Some answer of `key_match_from` points at a record with `entry`'s key,
/// and at the first such position at or after `i`.
proof fn lemma_key_match_from_some(
    files: Seq<FileCacheItemLatest>,
    entry: FileCacheItemLatest,
    i: int,
    k: int,
)
    requires
        0 <= i,
        key_match_from(files, entry, i) == Some(k),
    ensures
        i <= k < files.len(),
        same_key(files[k], entry),
        forall|j: int| i <= j < k ==> !same_key(#[trigger] files[j], entry),
    decreases files.len() + 1 - i,
{
    if i < files.len() && !same_key(files[i], entry) {
        lemma_key_match_from_some(files, entry, i + 1, k);
    }
}

/// Upserting never produces two records with the same composite key: a
/// cache whose records are pairwise distinct keeps that invariant under any
/// upsert.
pub proof fn lemma_upsert_preserves_unique(
    files: Seq<FileCacheItemLatest>,
    entry: FileCacheItemLatest,
)
    requires
        entries_unique(files),
    ensures
        entries_unique(spec_upsert(files, entry)),
{
    match first_key_match(files, entry) {
        Some(k) => {
            lemma_key_match_from_some(files, entry, 0, k);
            let updated = files.update(k, entry);
            assert forall|i: int, j: int| 0 <= i < j < updated.len() implies !same_key(
                updated[i],
                updated[j],
            ) by {
                if i == k || j == k {
                    assert(same_key(files[k], entry));
                }
            }
        },
        None => {
            lemma_key_match_from_none(files, entry, 0);
            let pushed = files.push(entry);
            assert forall|i: int, j: int| 0 <= i < j < pushed.len() implies !same_key(
                pushed[i],
                pushed[j],
            ) by {
                if j == files.len() {
                    assert(!same_key(files[i], entry));
                }
            }
        },
    }
}

/// Whether two records share the composite key.
fn same_key_exec(a: &FileCacheItemLatest, b: &FileCacheItemLatest) -> (r: bool)
    ensures
        r == same_key(*a, *b),
{
    if !str_eq(a.id.as_str(), b.id.as_str()) {
        return false;
    }
    let index_eq = match (a.index, b.index) {
        (Some(x), Some(y)) => x == y,
        (None, None) => true,
        _ => false,
    };
    if !index_eq {
        return false;
    }
    match (&a.media_id, &b.media_id) {
        (Some(x), Some(y)) => str_eq(x.as_str(), y.as_str()),
        (None, None) => true,
        _ => false,
    }
}

impl FileCacheLatest {
    /// Inserts or overwrites the record under `entry`'s composite key: the
    /// stored record is replaced outright when one exists — the last write
    /// for a key always wins, even a failure over a prior success — and
    /// `entry` is appended otherwise.
    pub fn upsert(&mut self, entry: FileCacheItemLatest)
        ensures
            final(self).files@ == spec_upsert(old(self).files@, entry),
            final(self).version == old(self).version,
            final(self).status == old(self).status,
    {
        let n = self.files.len();
        let mut i: usize = 0;
        while i < n
            invariant
                n == self.files@.len(),
                0 <= i <= n,
                *self == *old(self),
                key_match_from(self.files@, entry, 0) == key_match_from(
                    self.files@,
                    entry,
                    i as int,
                ),
            decreases n - i,
        {
            if same_key_exec(&self.files[i], &entry) {
                self.files.set(i, entry);
                return ;
            }
            i = i + 1;
        }
        self.files.push(entry);
    }

    /// Whether a record with the given composite key exists and records a
    /// success — and only then.
    pub fn is_downloaded(&self, id: &str, index: Option<usize>, media_id: &Option<String>) -> (r:
        bool)
        ensures
            r == spec_is_downloaded(self.files@, id@, index, opt_text(*media_id)),
    {
        let n = self.files.len();
        let mut i: usize = 0;
        while i < n
            invariant
                n == self.files@.len(),
                0 <= i <= n,
                forall|j: int|
                    0 <= j < i ==> !(entry_matches(
                        #[trigger] self.files@[j],
                        id@,
                        index,
                        opt_text(*media_id),
                    ) && self.files@[j].success),
            decreases n - i,
        {
            let e = &self.files[i];
            if e.success {
                let id_eq = str_eq(e.id.as_str(), id);
                let index_eq = match (e.index, index) {
                    (Some(x), Some(y)) => x == y,
                    (None, None) => true,
                    _ => false,
                };
                let media_eq = match (&e.media_id, media_id) {
                    (Some(x), Some(y)) => str_eq(x.as_str(), y.as_str()),
                    (None, None) => true,
                    _ => false,
                };
                if id_eq && index_eq && media_eq {
                    return true;
                }
            }
            i = i + 1;
        }
        false
    }

    /// Whether any record carries the given post id, whatever its outcome.
    pub fn contains_id(&self, id: &str) -> (r: bool)
        ensures
            r == spec_has_id(self.files@, id@),
    {
        let n = self.files.len();
        let mut i: usize = 0;
        while i < n
            invariant
                n == self.files@.len(),
                0 <= i <= n,
                forall|j: int| 0 <= j < i ==> (#[trigger] self.files@[j]).id@ != id@,
            decreases n - i,
        {
            if str_eq(self.files[i].id.as_str(), id) {
                return true;
            }
            i = i + 1;
        }
        false
    }
}

/// State shared by every unit of a run: the cached access token for the
/// token-gated provider, the cache file's path, and the cache itself.
pub struct SharedState {
    pub redgifs_token: Option<String>,
    pub file_cache_path: Option<String>,
    pub file_cache: FileCacheLatest,
}

impl Default for SharedState {
    fn default() -> (s: Self)
        ensures
            s.redgifs_token is None,
            s.file_cache_path is None,
            s.file_cache.version == FileCacheVersion::Latest,
            s.file_cache.status.resource == ResourceStatus::Active,
            s.file_cache.status.last_download == LastDownloadStatus::Success,
            s.file_cache.files@ == Seq::<FileCacheItemLatest>::empty(),
    {
        let s = SharedState {
            redgifs_token: None,
            file_cache_path: None,
            file_cache: FileCacheLatest {
                version: FileCacheVersion::Latest,
                status: FileCacheInfo {
                    resource: ResourceStatus::Active,
                    last_download: LastDownloadStatus::Success,
                },
                files: Vec::new(),
            },
        };
        proof {
            assert(s.file_cache.files@ =~= Seq::<FileCacheItemLatest>::empty());
        }
        s
    }
}

} // verus!
