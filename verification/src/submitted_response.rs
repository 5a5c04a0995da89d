//! The shape of a paginated listing of submitted posts, as the library
//! consumes it: plain values only, with timestamps as epoch seconds and
//! per-item media metadata as an ordered list of keyed entries.

use vstd::prelude::*;

verus! {

/// One page of a submitted-posts listing.
#[derive(Debug, Clone)]
pub struct RedditSubmittedResponse {
    pub kind: String,
    pub data: Data,
}

/// The payload of one listing page: the posts and the continuation cursor.
#[derive(Debug, Clone)]
pub struct Data {
    pub after: Option<String>,
    pub children: Vec<RedditSubmittedChild>,
    pub before: Option<String>,
}

/// One post wrapper within a listing page.
#[derive(Debug, Clone)]
pub struct RedditSubmittedChild {
    pub kind: String,
    pub data: RedditSubmittedChildData,
}

/// The fields of one submitted post that classification reads.
#[derive(Debug, Clone)]
pub struct RedditSubmittedChildData {
    pub subreddit: String,
    pub title: String,
    pub is_reddit_media_domain: bool,
    pub media_only: bool,
    pub ups: i64,
    pub id: String,
    pub author: String,
    pub url: String,
    pub created_utc: i64,
    pub media: Option<Media>,
    pub is_video: Option<bool>,
    pub is_gallery: Option<bool>,
    pub media_metadata: Option<Vec<MediaMetadataEntry>>,
    pub gallery_data: Option<GalleryData>,
    pub preview: Option<Preview>,
}

#[derive(Debug, Clone)]
pub struct LinkFlairRichtext {
    pub e: String,
    pub t: Option<String>,
    pub a: Option<String>,
    pub u: Option<String>,
}

#[derive(Debug, Clone)]
pub struct MediaEmbed {
    pub content: Option<String>,
    pub width: Option<i64>,
    pub scrolling: Option<bool>,
    pub height: Option<i64>,
}

#[derive(Debug, Clone)]
pub struct SecureMedia {
    pub type_field: Option<String>,
    pub oembed: Option<Oembed>,
    pub reddit_video: Option<RedditVideo>,
}

/// A platform-native video payload; its manifest URL is what a native-video
/// descriptor downloads.
#[derive(Debug, Clone)]
pub struct RedditVideo {
    pub bitrate_kbps: i64,
    pub fallback_url: String,
    pub height: i64,
    pub width: i64,
    pub scrubber_media_url: String,
    pub dash_url: String,
    pub duration: i64,
    pub hls_url: String,
    pub is_gif: bool,
    pub transcoding_status: String,
    pub has_audio: Option<bool>,
}

#[derive(Debug, Clone)]
pub struct Oembed {
    pub provider_url: String,
    pub version: String,
    pub title: String,
    pub type_field: Option<String>,
    pub thumbnail_width: i64,
    pub height: i64,
    pub width: i64,
    pub html: String,
    pub author_name: Option<String>,
    pub provider_name: String,
    pub thumbnail_url: String,
    pub thumbnail_height: i64,
    pub author_url: Option<String>,
}

#[derive(Debug, Clone)]
pub struct SecureMediaEmbed {
    pub content: Option<String>,
    pub width: Option<i64>,
    pub scrolling: Option<bool>,
    pub media_domain_url: Option<String>,
    pub height: Option<i64>,
}

#[derive(Debug, Clone)]
pub struct AuthorFlairRichtext {
    pub e: String,
    pub t: Option<String>,
    pub a: Option<String>,
    pub u: Option<String>,
}

#[derive(Debug, Clone)]
pub struct Gildings {}

/// Preview renderings of a post, inspected for embedded mp4 or gif variants.
#[derive(Debug, Clone)]
pub struct Preview {
    pub images: Vec<Image>,
    pub enabled: bool,
    pub reddit_video_preview: Option<RedditVideoPreview>,
}

#[derive(Debug, Clone)]
pub struct Image {
    pub source: Source,
    pub resolutions: Vec<Resolution>,
    pub variants: Variants,
    pub id: String,
}

#[derive(Debug, Clone)]
pub struct Source {
    pub url: String,
    pub width: i64,
    pub height: i64,
}

#[derive(Debug, Clone)]
pub struct Resolution {
    pub url: String,
    pub width: i64,
    pub height: i64,
}

/// One alternative rendering of a preview image (an embedded mp4 or gif).
#[derive(Debug, Clone)]
pub struct VariantMedia {
    pub source: Source,
    pub resolutions: Vec<Resolution>,
}

#[derive(Debug, Clone)]
pub struct Variants {
    pub obfuscated: Option<Obfuscated>,
    pub nsfw: Option<Nsfw>,
    pub mp4: Option<VariantMedia>,
    pub gif: Option<VariantMedia>,
}

#[derive(Debug, Clone)]
pub struct Obfuscated {
    pub source: Source,
    pub resolutions: Vec<Resolution>,
}

#[derive(Debug, Clone)]
pub struct Nsfw {
    pub source: Source,
    pub resolutions: Vec<Resolution>,
}

#[derive(Debug, Clone)]
pub struct RedditVideoPreview {
    pub bitrate_kbps: i64,
    pub fallback_url: String,
    pub height: i64,
    pub width: i64,
    pub scrubber_media_url: String,
    pub dash_url: String,
    pub duration: i64,
    pub hls_url: String,
    pub is_gif: bool,
    pub transcoding_status: String,
}

/// An embedded media descriptor; a known video-host name in `type_field`
/// marks the post for retrieval by an external tool.
#[derive(Debug, Clone)]
pub struct Media {
    pub type_field: Option<String>,
    pub oembed: Option<Oembed>,
    pub reddit_video: Option<RedditVideo>,
}

/// Per-item media metadata; `s` carries the resolved source, when present.
#[derive(Debug, Clone)]
pub struct MediaMetadataValue {
    pub status: String,
    pub s: Option<S>,
    pub id: Option<String>,
}

/// One entry of a post's media-metadata map, keyed by media id. Entries keep
/// the order in which the map was read; keys are expected to be unique.
#[derive(Debug, Clone)]
pub struct MediaMetadataEntry {
    pub key: String,
    pub value: MediaMetadataValue,
}

#[derive(Debug, Clone)]
pub struct O {
    pub y: i64,
    pub x: i64,
    pub u: String,
}

#[derive(Debug, Clone)]
pub struct P {
    pub y: i64,
    pub x: i64,
    pub u: String,
}

/// The resolved source of one media-metadata item: a still-image URL in `u`
/// or an embedded video URL in `mp4`, either of which may be absent.
#[derive(Debug, Clone)]
pub struct S {
    pub y: i64,
    pub x: i64,
    pub u: Option<String>,
    pub mp4: Option<String>,
}

/// The ordered list of a gallery's items.
#[derive(Debug, Clone)]
pub struct GalleryData {
    pub items: Vec<Item>,
}

/// One gallery item, naming the media-metadata entry that resolves it.
#[derive(Debug, Clone)]
pub struct Item {
    pub media_id: String,
    pub id: i64,
}

} // verus!
