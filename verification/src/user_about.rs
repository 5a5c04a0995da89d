//! The identity-probe payload for a user: consulted to tell a suspended
//! account apart from a merely forbidden listing.

use vstd::prelude::*;

verus! {

/// The response of the user identity probe.
#[derive(Debug, Clone)]
pub struct RedditUserAbout {
    pub kind: String,
    pub data: RedditUserAboutData,
}

/// The probe's payload; `is_suspended` is what the fetcher reads.
#[derive(Debug, Clone)]
pub struct RedditUserAboutData {
    pub name: String,
    pub is_suspended: bool,
    pub awardee_karma: i64,
    pub awarder_karma: i64,
    pub is_blocked: bool,
    pub total_karma: i64,
}

} // verus!
