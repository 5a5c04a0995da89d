//! The media classifier: a pure, total function from one submitted post to
//! the ordered list of downloadable descriptors it yields.
//!
//! Rules are evaluated top to bottom and the first match wins. A post that
//! matches no rule yields the empty list; that is the expected outcome for
//! unsupported content, not an error.

use vstd::prelude::*;

use crate::submitted_response::{
    Image, Item, MediaMetadataEntry, MediaMetadataValue, RedditSubmittedChild,
    RedditSubmittedChildData, RedditSubmittedResponse,
};
use crate::text::{after_last, contains_seq, str_eq, suffix_after_last, u64_string,
    usize_to_string, contains_sub};

verus! {

/// The provider that retrieves a descriptor's bytes.
#[derive(Debug, Clone, PartialEq, Eq, Structural)]
pub enum RedditMediaProviderType {
    RedditImage,
    RedditGifVideo,
    RedditVideo,
    RedditGalleryImage,
    ImgurImage,
    YoutubeVideo,
    RedgifsImage,
    RedgifsVideo,
    Unsupported,
}

/// One downloadable item derived from a post. A post yields zero or more;
/// more than one only for galleries and multi-item media metadata, ordered
/// by item position (`index`).
#[derive(Debug, Clone, PartialEq, Eq)]
pub struct RedditCrawlerPost {
    pub author: String,
    pub created_utc: i64,
    pub extension: String,
    pub id: String,
    pub provider: RedditMediaProviderType,
    pub subreddit: String,
    pub title: String,
    pub upvotes: i64,
    pub url: String,
    /// The position of this item within its gallery, if it came from one.
    pub index: Option<usize>,
    /// The media-metadata key this item was resolved through, if any.
    pub media_id: Option<String>,
    /// Set when the item was produced by the gallery rule.
    pub is_gallery: Option<bool>,
}

/// The mathematical image of a descriptor: every text field as a character
/// sequence, every count as an unbounded integer.
pub struct CrawlerPostView {
    pub author: Seq<char>,
    pub created_utc: int,
    pub extension: Seq<char>,
    pub id: Seq<char>,
    pub provider: RedditMediaProviderType,
    pub subreddit: Seq<char>,
    pub title: Seq<char>,
    pub upvotes: int,
    pub url: Seq<char>,
    pub index: Option<int>,
    pub media_id: Option<Seq<char>>,
    pub is_gallery: Option<bool>,
}

impl View for RedditCrawlerPost {
    type V = CrawlerPostView;

    open spec fn view(&self) -> CrawlerPostView {
        CrawlerPostView {
            author: self.author@,
            created_utc: self.created_utc as int,
            extension: self.extension@,
            id: self.id@,
            provider: self.provider,
            subreddit: self.subreddit@,
            title: self.title@,
            upvotes: self.upvotes as int,
            url: self.url@,
            index: match self.index {
                Some(i) => Some(i as int),
                None => None,
            },
            media_id: match self.media_id {
                Some(ref m) => Some(m@),
                None => None,
            },
            is_gallery: self.is_gallery,
        }
    }
}

impl DeepView for RedditCrawlerPost {
    type V = CrawlerPostView;

    open spec fn deep_view(&self) -> CrawlerPostView {
        self@
    }
}

/// A descriptor for the post itself, with the given provider, extension and
/// source URL, and no gallery position.
pub open spec fn single_view(
    d: RedditSubmittedChildData,
    provider: RedditMediaProviderType,
    extension: Seq<char>,
    url: Seq<char>,
) -> CrawlerPostView {
    CrawlerPostView {
        author: d.author@,
        created_utc: d.created_utc as int,
        extension: extension,
        id: d.id@,
        provider: provider,
        subreddit: d.subreddit@,
        title: d.title@,
        upvotes: d.ups as int,
        url: url,
        index: None,
        media_id: None,
        is_gallery: None,
    }
}

/// A descriptor for the item at gallery position `i`, resolved through the
/// media-metadata key `media_id`.
pub open spec fn indexed_view(
    d: RedditSubmittedChildData,
    provider: RedditMediaProviderType,
    extension: Seq<char>,
    url: Seq<char>,
    i: int,
    media_id: Seq<char>,
    is_gallery: Option<bool>,
) -> CrawlerPostView {
    CrawlerPostView {
        author: d.author@,
        created_utc: d.created_utc as int,
        extension: extension,
        id: d.id@,
        provider: provider,
        subreddit: d.subreddit@,
        title: d.title@ + "-"@ + u64_string(i),
        upvotes: d.ups as int,
        url: url,
        index: Some(i),
        media_id: Some(media_id),
        is_gallery: is_gallery,
    }
}

/// The embedded-mp4 descriptors of the first `n` preview images: one per
/// image that carries an mp4 variant.
pub open spec fn mp4_variant_views(d: RedditSubmittedChildData, images: Seq<Image>, n: int)
    -> Seq<CrawlerPostView>
    decreases n
{
    if n <= 0 {
        Seq::empty()
    } else {
        let prefix = mp4_variant_views(d, images, n - 1);
        match images[n - 1].variants.mp4 {
            Some(v) => prefix.push(single_view(
                d,
                RedditMediaProviderType::RedditImage,
                "mp4"@,
                v.source.url@,
            )),
            None => prefix,
        }
    }
}

/// The embedded-gif descriptors of the first `n` preview images: one per
/// image that carries a gif variant.
pub open spec fn gif_variant_views(d: RedditSubmittedChildData, images: Seq<Image>, n: int)
    -> Seq<CrawlerPostView>
    decreases n
{
    if n <= 0 {
        Seq::empty()
    } else {
        let prefix = gif_variant_views(d, images, n - 1);
        match images[n - 1].variants.gif {
            Some(v) => prefix.push(single_view(
                d,
                RedditMediaProviderType::RedditGifVideo,
                "gif"@,
                v.source.url@,
            )),
            None => prefix,
        }
    }
}

/// The media-metadata value stored under `key`, if any (first match).
pub open spec fn meta_lookup(meta: Seq<MediaMetadataEntry>, key: Seq<char>)
    -> Option<MediaMetadataValue>
    decreases meta.len()
{
    if meta.len() == 0 {
        None
    } else if meta[0].key@ == key {
        Some(meta[0].value)
    } else {
        meta_lookup(meta.drop_first(), key)
    }
}

/// Whether the gallery item at position `i` resolves to a source URL.
pub open spec fn gallery_item_resolved(
    meta: Seq<MediaMetadataEntry>,
    items: Seq<Item>,
    i: int,
) -> bool {
    meta_lookup(meta, items[i].media_id@) matches Some(v) && v.s matches Some(s) && s.u is Some
}

/// The source URL of the gallery item at position `i`.
pub open spec fn gallery_item_url(
    meta: Seq<MediaMetadataEntry>,
    items: Seq<Item>,
    i: int,
) -> Seq<char> {
    meta_lookup(meta, items[i].media_id@)->Some_0.s->Some_0.u->Some_0@
}

/// The gallery descriptors of the first `n` gallery items: one still image
/// per item whose metadata resolves to a source URL, in item order; items
/// without one are dropped.
pub open spec fn gallery_views(
    d: RedditSubmittedChildData,
    meta: Seq<MediaMetadataEntry>,
    items: Seq<Item>,
    n: int,
) -> Seq<CrawlerPostView>
    decreases n
{
    if n <= 0 {
        Seq::empty()
    } else {
        let prefix = gallery_views(d, meta, items, n - 1);
        if gallery_item_resolved(meta, items, n - 1) {
            prefix.push(indexed_view(
                d,
                RedditMediaProviderType::RedditGalleryImage,
                "webp"@,
                gallery_item_url(meta, items, n - 1),
                n - 1,
                items[n - 1].media_id@,
                Some(true),
            ))
        } else {
            prefix
        }
    }
}

/// The embedded-video descriptors of the first `n` media-metadata entries:
/// one per entry whose item carries an embedded mp4 URL, in entry order.
pub open spec fn metadata_mp4_views(
    d: RedditSubmittedChildData,
    meta: Seq<MediaMetadataEntry>,
    n: int,
) -> Seq<CrawlerPostView>
    decreases n
{
    if n <= 0 {
        Seq::empty()
    } else {
        let prefix = metadata_mp4_views(d, meta, n - 1);
        if meta[n - 1].value.s matches Some(s) && s.mp4 is Some {
            prefix.push(indexed_view(
                d,
                RedditMediaProviderType::RedditGifVideo,
                "mp4"@,
                meta[n - 1].value.s->Some_0.mp4->Some_0@,
                n - 1,
                meta[n - 1].key@,
                None,
            ))
        } else {
            prefix
        }
    }
}

/// The descriptors of a post hosted on the platform's own media domain and
/// not marked as a video: preview mp4 variants win, then preview gif
/// variants, then the outbound URL itself with its extension inferred from
/// its trailing path segment.
pub open spec fn still_media_views(d: RedditSubmittedChildData) -> Seq<CrawlerPostView> {
    let videos = match d.preview {
        Some(p) => mp4_variant_views(d, p.images@, p.images@.len() as int),
        None => Seq::empty(),
    };
    if videos.len() > 0 {
        videos
    } else {
        let gifs = match d.preview {
            Some(p) => gif_variant_views(d, p.images@, p.images@.len() as int),
            None => Seq::empty(),
        };
        if gifs.len() > 0 {
            gifs
        } else if after_last(d.url@, "."@) == "gif"@ {
            seq![single_view(d, RedditMediaProviderType::RedditImage, "gif"@, d.url@)]
        } else {
            seq![single_view(d, RedditMediaProviderType::RedditImage, "webp"@, d.url@)]
        }
    }
}

/// Whether the post's embed descriptor names the known video-hosting
/// platform handled by the external download tool.
pub open spec fn is_youtube_embed(d: RedditSubmittedChildData) -> bool {
    d.media matches Some(m) && m.type_field matches Some(tf) && tf@ == "youtube.com"@
}

/// The full classification of one post: the ordered descriptors it yields.
/// Rules, first match wins:
/// on the platform's media domain, a native video or the still-media rules;
/// otherwise galleries, per-entry embedded videos, the known video host,
/// the two third-party image and video hosts, and finally nothing.
pub open spec fn classified_posts(d: RedditSubmittedChildData) -> Seq<CrawlerPostView> {
    if d.is_reddit_media_domain {
        match d.is_video {
            Some(true) => match d.media {
                Some(m) => match m.reddit_video {
                    Some(v) => seq![
                        single_view(d, RedditMediaProviderType::RedditVideo, "mp4"@, v.hls_url@),
                    ],
                    None => Seq::empty(),
                },
                None => Seq::empty(),
            },
            Some(false) => still_media_views(d),
            None => Seq::empty(),
        }
    } else {
        if d.media_metadata is Some && d.is_gallery == Some(true) && d.gallery_data is Some {
            gallery_views(
                d,
                d.media_metadata->Some_0@,
                d.gallery_data->Some_0.items@,
                d.gallery_data->Some_0.items@.len() as int,
            )
        } else if d.media_metadata is Some {
            metadata_mp4_views(
                d,
                d.media_metadata->Some_0@,
                d.media_metadata->Some_0@.len() as int,
            )
        } else if is_youtube_embed(d) {
            seq![single_view(d, RedditMediaProviderType::YoutubeVideo, "mp4"@, d.url@)]
        } else if contains_seq(d.url@, "redgifs.com/i/"@) {
            seq![single_view(d, RedditMediaProviderType::RedgifsImage, "webp"@, d.url@)]
        } else if contains_seq(d.url@, "redgifs.com/watch/"@) || contains_seq(
            d.url@,
            "redgifs.com/ifr/"@,
        ) {
            seq![single_view(d, RedditMediaProviderType::RedgifsVideo, "mp4"@, d.url@)]
        } else if contains_seq(d.url@, "imgur"@) {
            seq![
                single_view(
                    d,
                    RedditMediaProviderType::ImgurImage,
                    after_last(d.url@, "."@),
                    d.url@,
                ),
            ]
        } else {
            Seq::empty()
        }
    }
}

/// How many of the first `n` gallery items resolve to a source URL.
pub open spec fn resolved_count(meta: Seq<MediaMetadataEntry>, items: Seq<Item>, n: int) -> int
    decreases n
{
    if n <= 0 {
        0
    } else {
        resolved_count(meta, items, n - 1) + if gallery_item_resolved(meta, items, n - 1) {
            1int
        } else {
            0int
        }
    }
}

/// The gallery rule yields exactly one descriptor per resolvable item among
/// the first `n`, each carrying its item position, in ascending position
/// order; unresolvable items yield nothing.
pub proof fn lemma_gallery_views_shape(
    d: RedditSubmittedChildData,
    meta: Seq<MediaMetadataEntry>,
    items: Seq<Item>,
    n: int,
)
    requires
        0 <= n <= items.len(),
    ensures
        gallery_views(d, meta, items, n).len() == resolved_count(meta, items, n),
        forall|k: int|
            0 <= k < gallery_views(d, meta, items, n).len() ==> {
                let p = #[trigger] gallery_views(d, meta, items, n)[k];
                &&& p.index matches Some(i)
                &&& 0 <= p.index->Some_0 < n
                &&& gallery_item_resolved(meta, items, p.index->Some_0)
                &&& p == indexed_view(
                    d,
                    RedditMediaProviderType::RedditGalleryImage,
                    "webp"@,
                    gallery_item_url(meta, items, p.index->Some_0),
                    p.index->Some_0,
                    items[p.index->Some_0].media_id@,
                    Some(true),
                )
            },
        forall|k1: int, k2: int|
            0 <= k1 < k2 < gallery_views(d, meta, items, n).len()
                ==> gallery_views(d, meta, items, n)[k1].index->Some_0 < gallery_views(
                d,
                meta,
                items,
                n,
            )[k2].index->Some_0,
        forall|i: int|
            0 <= i < n && gallery_item_resolved(meta, items, i) ==> exists|k: int|
                0 <= k < gallery_views(d, meta, items, n).len() && gallery_views(
                    d,
                    meta,
                    items,
                    n,
                )[k].index == Some(i),
    decreases n,
{
    if n > 0 {
        lemma_gallery_views_shape(d, meta, items, n - 1);
        let prefix = gallery_views(d, meta, items, n - 1);
        let whole = gallery_views(d, meta, items, n);
        if gallery_item_resolved(meta, items, n - 1) {
            assert(whole == prefix.push(indexed_view(
                d,
                RedditMediaProviderType::RedditGalleryImage,
                "webp"@,
                gallery_item_url(meta, items, n - 1),
                n - 1,
                items[n - 1].media_id@,
                Some(true),
            )));
            assert(forall|i: int|
                0 <= i < n && gallery_item_resolved(meta, items, i) ==> exists|k: int|
                    0 <= k < whole.len() && whole[k].index == Some(i)) by {
                assert forall|i: int|
                    0 <= i < n && gallery_item_resolved(meta, items, i) implies exists|k: int|
                    0 <= k < whole.len() && whole[k].index == Some(i) by {
                    if i < n - 1 {
                        let k0 = choose|k: int|
                            0 <= k < prefix.len() && prefix[k].index == Some(i);
                        assert(whole[k0].index == Some(i));
                    } else {
                        assert(whole[whole.len() - 1].index == Some(i));
                    }
                }
            }
        }
    }
}

/// The classifier on a gallery post: exactly one descriptor per resolvable
/// gallery item, in ascending gallery-index order; items whose metadata
/// lacks a resolved source URL are dropped, without error.
pub proof fn lemma_classifier_gallery(d: RedditSubmittedChildData)
    requires
        !d.is_reddit_media_domain,
        d.media_metadata is Some,
        d.is_gallery == Some(true),
        d.gallery_data is Some,
    ensures
        classified_posts(d) == gallery_views(
            d,
            d.media_metadata->Some_0@,
            d.gallery_data->Some_0.items@,
            d.gallery_data->Some_0.items@.len() as int,
        ),
        classified_posts(d).len() == resolved_count(
            d.media_metadata->Some_0@,
            d.gallery_data->Some_0.items@,
            d.gallery_data->Some_0.items@.len() as int,
        ),
        forall|k: int|
            0 <= k < classified_posts(d).len() ==> {
                let p = #[trigger] classified_posts(d)[k];
                &&& p.index matches Some(i)
                &&& p.provider == RedditMediaProviderType::RedditGalleryImage
                &&& 0 <= p.index->Some_0 < d.gallery_data->Some_0.items@.len()
                &&& gallery_item_resolved(
                    d.media_metadata->Some_0@,
                    d.gallery_data->Some_0.items@,
                    p.index->Some_0,
                )
                &&& p.url == gallery_item_url(
                    d.media_metadata->Some_0@,
                    d.gallery_data->Some_0.items@,
                    p.index->Some_0,
                )
            },
        forall|k1: int, k2: int|
            0 <= k1 < k2 < classified_posts(d).len() ==> classified_posts(
                d,
            )[k1].index->Some_0 < classified_posts(d)[k2].index->Some_0,
        forall|i: int|
            0 <= i < d.gallery_data->Some_0.items@.len() && gallery_item_resolved(
                d.media_metadata->Some_0@,
                d.gallery_data->Some_0.items@,
                i,
            ) ==> exists|k: int|
                0 <= k < classified_posts(d).len() && classified_posts(d)[k].index == Some(i),
{
    lemma_gallery_views_shape(
        d,
        d.media_metadata->Some_0@,
        d.gallery_data->Some_0.items@,
        d.gallery_data->Some_0.items@.len() as int,
    );
}

/// Whether any classification rule matches the post. The metadata rules
/// count as matching even when every item of the matched post is dropped.
pub open spec fn matches_some_rule(d: RedditSubmittedChildData) -> bool {
    if d.is_reddit_media_domain {
        match d.is_video {
            Some(true) => d.media matches Some(m) && m.reddit_video is Some,
            Some(false) => true,
            None => false,
        }
    } else {
        ||| d.media_metadata is Some
        ||| is_youtube_embed(d)
        ||| contains_seq(d.url@, "redgifs.com/i/"@)
        ||| contains_seq(d.url@, "redgifs.com/watch/"@)
        ||| contains_seq(d.url@, "redgifs.com/ifr/"@)
        ||| contains_seq(d.url@, "imgur"@)
    }
}

/// The classifier on a post matching none of its rules: the empty list, not
/// an error.
pub proof fn lemma_classifier_unmatched_empty(d: RedditSubmittedChildData)
    requires
        !matches_some_rule(d),
    ensures
        classified_posts(d) =~= Seq::<CrawlerPostView>::empty(),
{
}

/// The classification of every post of a listing page, in page order.
pub open spec fn children_posts_upto(cs: Seq<RedditSubmittedChild>, n: int)
    -> Seq<CrawlerPostView>
    decreases n
{
    if n <= 0 {
        Seq::empty()
    } else {
        children_posts_upto(cs, n - 1) + classified_posts(cs[n - 1].data)
    }
}

/// The classification of a whole listing page.
pub open spec fn response_posts(resp: RedditSubmittedResponse) -> Seq<CrawlerPostView> {
    children_posts_upto(resp.data.children@, resp.data.children@.len() as int)
}

/// A descriptor for the post itself.
fn make_single(
    d: &RedditSubmittedChildData,
    provider: RedditMediaProviderType,
    extension: &str,
    url: &String,
) -> (p: RedditCrawlerPost)
    ensures
        p.deep_view() == single_view(*d, provider, extension@, url@),
{
    RedditCrawlerPost {
        author: d.author.clone(),
        created_utc: d.created_utc,
        extension: extension.to_owned(),
        id: d.id.clone(),
        provider: provider,
        subreddit: d.subreddit.clone(),
        title: d.title.clone(),
        upvotes: d.ups,
        url: url.clone(),
        index: None,
        media_id: None,
        is_gallery: None,
    }
}

/// A descriptor for the item at position `i`, resolved through `media_id`;
/// its title carries the item position as a suffix.
fn make_indexed(
    d: &RedditSubmittedChildData,
    provider: RedditMediaProviderType,
    extension: &str,
    url: &String,
    i: usize,
    media_id: &String,
    is_gallery: Option<bool>,
) -> (p: RedditCrawlerPost)
    ensures
        p.deep_view() == indexed_view(
            *d,
            provider,
            extension@,
            url@,
            i as int,
            media_id@,
            is_gallery,
        ),
{
    let mut title = d.title.clone();
    title.append("-");
    let num = usize_to_string(i);
    title.append(num.as_str());
    let p = RedditCrawlerPost {
        author: d.author.clone(),
        created_utc: d.created_utc,
        extension: extension.to_owned(),
        id: d.id.clone(),
        provider: provider,
        subreddit: d.subreddit.clone(),
        title: title,
        upvotes: d.ups,
        url: url.clone(),
        index: Some(i),
        media_id: Some(media_id.clone()),
        is_gallery: is_gallery,
    };
    proof {
        assert(p.deep_view().title =~= d.title@ + "-"@ + u64_string(i as int));
    }
    p
}

/// The embedded-mp4 descriptors of the post's preview images.
fn preview_mp4_posts(d: &RedditSubmittedChildData) -> (r: Vec<RedditCrawlerPost>)
    ensures
        r.deep_view() == (match d.preview {
            Some(p) => mp4_variant_views(*d, p.images@, p.images@.len() as int),
            None => Seq::<CrawlerPostView>::empty(),
        }),
{
    let mut r: Vec<RedditCrawlerPost> = Vec::new();
    assert(r.deep_view() =~= Seq::<CrawlerPostView>::empty());
    match &d.preview {
        Some(p) => {
            let n = p.images.len();
            let mut i: usize = 0;
            while i < n
                invariant
                    n == p.images@.len(),
                    0 <= i <= n,
                    r.deep_view() == mp4_variant_views(*d, p.images@, i as int),
                decreases n - i,
            {
                match &p.images[i].variants.mp4 {
                    Some(v) => {
                        let post = make_single(
                            d,
                            RedditMediaProviderType::RedditImage,
                            "mp4",
                            &v.source.url,
                        );
                        r.push(post);
                    },
                    None => {},
                }
                i = i + 1;
                assert(r.deep_view() =~= mp4_variant_views(*d, p.images@, i as int));
            }
        },
        None => {},
    }
    r
}

/// The embedded-gif descriptors of the post's preview images.
fn preview_gif_posts(d: &RedditSubmittedChildData) -> (r: Vec<RedditCrawlerPost>)
    ensures
        r.deep_view() == (match d.preview {
            Some(p) => gif_variant_views(*d, p.images@, p.images@.len() as int),
            None => Seq::<CrawlerPostView>::empty(),
        }),
{
    let mut r: Vec<RedditCrawlerPost> = Vec::new();
    assert(r.deep_view() =~= Seq::<CrawlerPostView>::empty());
    match &d.preview {
        Some(p) => {
            let n = p.images.len();
            let mut i: usize = 0;
            while i < n
                invariant
                    n == p.images@.len(),
                    0 <= i <= n,
                    r.deep_view() == gif_variant_views(*d, p.images@, i as int),
                decreases n - i,
            {
                match &p.images[i].variants.gif {
                    Some(v) => {
                        let post = make_single(
                            d,
                            RedditMediaProviderType::RedditGifVideo,
                            "gif",
                            &v.source.url,
                        );
                        r.push(post);
                    },
                    None => {},
                }
                i = i + 1;
                assert(r.deep_view() =~= gif_variant_views(*d, p.images@, i as int));
            }
        },
        None => {},
    }
    r
}

/// The media-metadata value stored under `key`, if any.
fn meta_get<'a>(meta: &'a Vec<MediaMetadataEntry>, key: &str) -> (r: Option<
    &'a MediaMetadataValue,
>)
    ensures
        match r {
            Some(v) => meta_lookup(meta@, key@) == Some(*v),
            None => meta_lookup(meta@, key@) is None,
        },
{
    let n = meta.len();
    let mut i: usize = 0;
    proof {
        assert(meta@.subrange(0, n as int) =~= meta@);
    }
    while i < n
        invariant
            n == meta@.len(),
            0 <= i <= n,
            meta_lookup(meta@, key@) == meta_lookup(meta@.subrange(i as int, n as int), key@),
        decreases n - i,
    {
        proof {
            assert(meta@.subrange(i as int, n as int)[0] == meta@[i as int]);
        }
        if str_eq(meta[i].key.as_str(), key) {
            return Some(&meta[i].value);
        }
        proof {
            assert(meta@.subrange(i as int, n as int).drop_first() =~= meta@.subrange(
                i + 1,
                n as int,
            ));
        }
        i = i + 1;
    }
    proof {
        assert(meta@.subrange(n as int, n as int).len() == 0);
    }
    None
}

/// The gallery descriptors of a gallery post: one still image per item whose
/// metadata resolves to a source URL, in item order.
fn gallery_posts_exec(
    d: &RedditSubmittedChildData,
    meta: &Vec<MediaMetadataEntry>,
    items: &Vec<Item>,
) -> (r: Vec<RedditCrawlerPost>)
    ensures
        r.deep_view() == gallery_views(*d, meta@, items@, items@.len() as int),
{
    let mut r: Vec<RedditCrawlerPost> = Vec::new();
    assert(r.deep_view() =~= Seq::<CrawlerPostView>::empty());
    let n = items.len();
    let mut i: usize = 0;
    while i < n
        invariant
            n == items@.len(),
            0 <= i <= n,
            r.deep_view() == gallery_views(*d, meta@, items@, i as int),
        decreases n - i,
    {
        match meta_get(meta, items[i].media_id.as_str()) {
            Some(value) => match &value.s {
                Some(s) => match &s.u {
                    Some(u) => {
                        let post = make_indexed(
                            d,
                            RedditMediaProviderType::RedditGalleryImage,
                            "webp",
                            u,
                            i,
                            &items[i].media_id,
                            Some(true),
                        );
                        r.push(post);
                    },
                    None => {},
                },
                None => {},
            },
            None => {},
        }
        i = i + 1;
        assert(r.deep_view() =~= gallery_views(*d, meta@, items@, i as int));
    }
    r
}

/// The embedded-video descriptors of the post's media-metadata entries, in
/// entry order.
fn metadata_mp4_posts(d: &RedditSubmittedChildData, meta: &Vec<MediaMetadataEntry>) -> (r: Vec<
    RedditCrawlerPost,
>)
    ensures
        r.deep_view() == metadata_mp4_views(*d, meta@, meta@.len() as int),
{
    let mut r: Vec<RedditCrawlerPost> = Vec::new();
    assert(r.deep_view() =~= Seq::<CrawlerPostView>::empty());
    let n = meta.len();
    let mut i: usize = 0;
    while i < n
        invariant
            n == meta@.len(),
            0 <= i <= n,
            r.deep_view() == metadata_mp4_views(*d, meta@, i as int),
        decreases n - i,
    {
        match &meta[i].value.s {
            Some(s) => match &s.mp4 {
                Some(mp4) => {
                    let post = make_indexed(
                        d,
                        RedditMediaProviderType::RedditGifVideo,
                        "mp4",
                        mp4,
                        i,
                        &meta[i].key,
                        None,
                    );
                    r.push(post);
                },
                None => {},
            },
            None => {},
        }
        i = i + 1;
        assert(r.deep_view() =~= metadata_mp4_views(*d, meta@, i as int));
    }
    r
}

/// The classifier. It holds no state; classification is a pure function of
/// the post payload.
#[derive(Debug, Clone)]
pub struct RedditPostParser {}

impl Default for RedditPostParser {
    fn default() -> (p: Self)
        ensures
            p == (RedditPostParser {  }),
    {
        RedditPostParser {  }
    }
}

impl RedditPostParser {
    /// Classifies every post of a listing page, in page order.
    pub fn parse(&self, response: &RedditSubmittedResponse) -> (r: Vec<RedditCrawlerPost>)
        ensures
            r.deep_view() == response_posts(*response),
    {
        let mut r: Vec<RedditCrawlerPost> = Vec::new();
        assert(r.deep_view() =~= Seq::<CrawlerPostView>::empty());
        let n = response.data.children.len();
        let mut i: usize = 0;
        while i < n
            invariant
                n == response.data.children@.len(),
                0 <= i <= n,
                r.deep_view() == children_posts_upto(response.data.children@, i as int),
            decreases n - i,
        {
            let mut batch = self.parse_user_submitted(&response.data.children[i]);
            r.append(&mut batch);
            i = i + 1;
            assert(r.deep_view() =~= children_posts_upto(response.data.children@, i as int));
        }
        r
    }

    /// Classifies one post: the rule policy of `classified_posts`, first
    /// match wins, empty result when nothing matches.
    pub fn parse_user_submitted(&self, child: &RedditSubmittedChild) -> (r: Vec<
        RedditCrawlerPost,
    >)
        ensures
            r.deep_view() == classified_posts(child.data),
    {
        let d = &child.data;
        let mut r: Vec<RedditCrawlerPost> = Vec::new();
        assert(r.deep_view() =~= Seq::<CrawlerPostView>::empty());
        if d.is_reddit_media_domain {
            match d.is_video {
                Some(true) => {
                    match &d.media {
                        Some(m) => {
                            match &m.reddit_video {
                                Some(v) => {
                                    let post = make_single(
                                        d,
                                        RedditMediaProviderType::RedditVideo,
                                        "mp4",
                                        &v.hls_url,
                                    );
                                    r.push(post);
                                    assert(r.deep_view() =~= classified_posts(child.data));
                                },
                                None => {},
                            }
                        },
                        None => {},
                    }
                    r
                },
                Some(false) => {
                    let videos = preview_mp4_posts(d);
                    if videos.len() > 0 {
                        return videos;
                    }
                    let gifs = preview_gif_posts(d);
                    if gifs.len() > 0 {
                        return gifs;
                    }
                    let ext = suffix_after_last(d.url.as_str(), ".");
                    if str_eq(ext.as_str(), "gif") {
                        let post = make_single(d, RedditMediaProviderType::RedditImage, "gif", &d.url);
                        r.push(post);
                        assert(r.deep_view() =~= classified_posts(child.data));
                    } else {
                        let post = make_single(d, RedditMediaProviderType::RedditImage, "webp", &d.url);
                        r.push(post);
                        assert(r.deep_view() =~= classified_posts(child.data));
                    }
                    r
                },
                None => r,
            }
        } else {
            match (&d.media_metadata, d.is_gallery, &d.gallery_data) {
                (Some(meta), Some(true), Some(gd)) => {
                    return gallery_posts_exec(d, meta, &gd.items);
                },
                _ => {},
            }
            if let Some(meta) = &d.media_metadata {
                return metadata_mp4_posts(d, meta);
            }
            match &d.media {
                Some(m) => {
                    match &m.type_field {
                        Some(tf) => {
                            if str_eq(tf.as_str(), "youtube.com") {
                                let post = make_single(
                                    d,
                                    RedditMediaProviderType::YoutubeVideo,
                                    "mp4",
                                    &d.url,
                                );
                                r.push(post);
                                assert(r.deep_view() =~= classified_posts(child.data));
                                return r;
                            }
                        },
                        None => {},
                    }
                },
                None => {},
            }
            if contains_sub(d.url.as_str(), "redgifs.com/i/") {
                let post = make_single(d, RedditMediaProviderType::RedgifsImage, "webp", &d.url);
                r.push(post);
                assert(r.deep_view() =~= classified_posts(child.data));
                return r;
            }
            if contains_sub(d.url.as_str(), "redgifs.com/watch/") || contains_sub(
                d.url.as_str(),
                "redgifs.com/ifr/",
            ) {
                let post = make_single(d, RedditMediaProviderType::RedgifsVideo, "mp4", &d.url);
                r.push(post);
                assert(r.deep_view() =~= classified_posts(child.data));
                return r;
            }
            if contains_sub(d.url.as_str(), "imgur") {
                let ext = suffix_after_last(d.url.as_str(), ".");
                let post = make_single(d, RedditMediaProviderType::ImgurImage, ext.as_str(), &d.url);
                r.push(post);
                assert(r.deep_view() =~= classified_posts(child.data));
                return r;
            }
            r
        }
    }
}

} // verus!
