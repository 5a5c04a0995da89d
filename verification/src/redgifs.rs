//! The token-gated media provider: canonical media-id extraction from the
//! three accepted URL shapes, the provider's endpoint URLs, quality
//! selection, and the once-per-run caching of its short-lived access token.
//!
//! The HTTP requests themselves are outside work; everything decided from
//! their plain payloads is verified here.

use vstd::prelude::*;

use crate::state::SharedState;
use crate::text::{
    after_last, before_first, contains_seq, contains_sub, prefix_before_first, suffix_after_last,
};

verus! {

/// The payload of the temporary-token endpoint.
#[derive(Debug, Clone)]
pub struct RedgifsTemporaryTokenResponse {
    pub token: String,
    pub addr: String,
    pub agent: String,
    pub session: String,
    pub rtfm: String,
}

/// The payload of the per-item metadata endpoint.
#[derive(Debug, Clone)]
pub struct RedgifsGifResponse {
    pub gif: RedgifsGif,
}

/// One item's metadata: its id and its quality-ranked delivery URLs.
#[derive(Debug, Clone)]
pub struct RedgifsGif {
    pub id: String,
    pub create_date: i64,
    pub urls: RedgifsUrls,
}

/// The delivery URLs of one item, by quality.
#[derive(Debug, Clone)]
pub struct RedgifsUrls {
    pub hd: String,
    pub sd: String,
}

/// The requested delivery quality; high definition is preferred.
#[derive(Debug, Clone, Copy, PartialEq, Eq, Structural)]
pub enum RedgifsQuality {
    SD,
    HD,
}

/// The failures of the token-gated provider.
#[derive(Debug, Clone, PartialEq, Eq)]
pub enum RedgifsClientError {
    ReqwestMiddleware(String),
    Reqwest(String),
    SerdeJson(String),
    ExtractionFailed,
}

/// The canonical media id carried by a URL of one of the three accepted
/// shapes: for an `/i/` URL, what stands between the last `/i/` and the
/// first following dot; for a `/watch/` or `/ifr/` URL, what follows the
/// last such segment. Any other URL carries none.
pub open spec fn spec_redgifs_post_id(url: Seq<char>) -> Option<Seq<char>> {
    if contains_seq(url, "redgifs.com/i/"@) {
        Some(before_first(after_last(url, "/i/"@), "."@))
    } else if contains_seq(url, "redgifs.com/watch/"@) {
        Some(after_last(url, "/watch/"@))
    } else if contains_seq(url, "redgifs.com/ifr/"@) {
        Some(after_last(url, "/ifr/"@))
    } else {
        None
    }
}

/// Extracts the canonical media id from a URL; a URL of none of the three
/// accepted shapes is rejected, and only such a URL.
pub fn extract_redgifs_post_id(url: &str) -> (r: Result<String, RedgifsClientError>)
    ensures
        match spec_redgifs_post_id(url@) {
            Some(id) => r matches Ok(s) && s@ == id,
            None => r == Err::<String, RedgifsClientError>(RedgifsClientError::ExtractionFailed),
        },
{
    if contains_sub(url, "redgifs.com/i/") {
        let tail = suffix_after_last(url, "/i/");
        Ok(prefix_before_first(tail.as_str(), "."))
    } else if contains_sub(url, "redgifs.com/watch/") {
        Ok(suffix_after_last(url, "/watch/"))
    } else if contains_sub(url, "redgifs.com/ifr/") {
        Ok(suffix_after_last(url, "/ifr/"))
    } else {
        Err(RedgifsClientError::ExtractionFailed)
    }
}

/// The temporary-token endpoint.
pub fn temporary_token_url() -> (r: &'static str)
    ensures
        r@ == "https://api.redgifs.com/v2/auth/temporary"@,
{
    "https://api.redgifs.com/v2/auth/temporary"
}

/// The metadata endpoint of one item.
pub fn gen_gifs_url(post_id: &str) -> (r: String)
    ensures
        r@ == "https://api.redgifs.com/v2/gifs/"@ + post_id@,
{
    let mut r = "https://api.redgifs.com/v2/gifs/".to_owned();
    r.append(post_id);
    r
}

/// The bearer value the metadata request authorizes with.
pub fn bearer_header_value(token: &str) -> (r: String)
    ensures
        r@ == "Bearer "@ + token@,
{
    let mut r = "Bearer ".to_owned();
    r.append(token);
    r
}

/// The delivery URL of the requested quality.
pub fn pick_quality_url(urls: &RedgifsUrls, quality: &RedgifsQuality) -> (r: String)
    ensures
        *quality == RedgifsQuality::SD ==> r@ == urls.sd@,
        *quality == RedgifsQuality::HD ==> r@ == urls.hd@,
{
    match quality {
        RedgifsQuality::SD => urls.sd.clone(),
        RedgifsQuality::HD => urls.hd.clone(),
    }
}

/// Whether the run still needs to fetch its access token: only before the
/// first token-gated unit publishes one.
pub fn needs_token(state: &SharedState) -> (r: bool)
    ensures
        r == (state.redgifs_token is None),
{
    state.redgifs_token.is_none()
}

/// The already-published access token, when one exists.
pub fn cached_token(state: &SharedState) -> (r: Option<String>)
    ensures
        match state.redgifs_token {
            Some(ref t) => (r matches Some(c) && c@ == t@),
            None => r is None,
        },
{
    match &state.redgifs_token {
        Some(t) => Some(t.clone()),
        None => None,
    }
}

/// Publishes a freshly fetched token for the rest of the run and hands it
/// back for immediate use; the cache and its path are left untouched.
pub fn adopt_token(state: &mut SharedState, fetched: RedgifsTemporaryTokenResponse) -> (t: String)
    ensures
        final(state).redgifs_token matches Some(s) && s@ == fetched.token@,
        t@ == fetched.token@,
        final(state).file_cache_path == old(state).file_cache_path,
        final(state).file_cache == old(state).file_cache,
{
    state.redgifs_token = Some(fetched.token.clone());
    fetched.token
}

} // verus!
