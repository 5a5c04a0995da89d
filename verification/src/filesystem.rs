//! Destination paths for downloaded media: the deterministic file-name
//! template `{upvotes}_{author}_{postId}_{date}`, an optional gallery-index
//! suffix, and the resolved extension.

use vstd::prelude::*;

use crate::dates::{format_iso_date, iso_date_of, valid_epoch_seconds};
use crate::reddit_parser::RedditCrawlerPost;
use crate::text::{i64_string, i64_to_string, u64_string, usize_to_string};

verus! {

/// Joins the output directory and a stem with a path separator.
pub fn get_output_folder(path: &str, stem: &str) -> (r: String)
    ensures
        r@ == path@ + "/"@ + stem@,
{
    let mut r = path.to_owned();
    r.append("/");
    r.append(stem);
    r
}

/// The file name of a descriptor, rendered with the given calendar date:
/// `{upvotes}_{author}_{postId}_{date}`, plus `_{index}` for gallery items.
pub open spec fn spec_file_name(post: RedditCrawlerPost, date: Seq<char>) -> Seq<char> {
    let base = i64_string(post.upvotes as int) + "_"@ + post.author@ + "_"@ + post.id@ + "_"@
        + date;
    match post.index {
        Some(i) => base + "_"@ + u64_string(i as int),
        None => base,
    }
}

/// The full destination path of a descriptor, under the given folder and
/// with the file name's extension appended.
pub open spec fn spec_file_path(folder: Seq<char>, post: RedditCrawlerPost, date: Seq<char>)
    -> Seq<char> {
    "./"@ + folder + "/"@ + spec_file_name(post, date) + "."@ + post.extension@
}

/// Renders the file name of a descriptor with an already-rendered calendar
/// date.
pub fn build_file_name(post: &RedditCrawlerPost, date: &str) -> (r: String)
    ensures
        r@ == spec_file_name(*post, date@),
{
    let mut r = i64_to_string(post.upvotes);
    r.append("_");
    r.append(post.author.as_str());
    r.append("_");
    r.append(post.id.as_str());
    r.append("_");
    r.append(date);
    match post.index {
        Some(i) => {
            r.append("_");
            let num = usize_to_string(i);
            r.append(num.as_str());
            assert(r@ =~= spec_file_name(*post, date@));
        },
        None => {
            assert(r@ =~= spec_file_name(*post, date@));
        },
    }
    r
}

/// Renders the full destination path of a descriptor, with its creation
/// date rendered as a calendar date.
pub fn build_file_path(folder: &str, post: &RedditCrawlerPost) -> (r: String)
    requires
        valid_epoch_seconds(post.created_utc as int),
    ensures
        r@ == spec_file_path(folder@, *post, iso_date_of(post.created_utc as int)),
{
    let date = format_iso_date(post.created_utc);
    let mut r = String::new();
    r.append("./");
    r.append(folder);
    r.append("/");
    let name = build_file_name(post, date.as_str());
    r.append(name.as_str());
    r.append(".");
    r.append(post.extension.as_str());
    assert(r@ =~= spec_file_path(folder@, *post, iso_date_of(post.created_utc as int)));
    r
}

/// Renders the full destination path only when the descriptor's timestamp
/// lies in the renderable calendar range, and reports the out-of-range case
/// instead of failing.
pub fn try_build_file_path(folder: &str, post: &RedditCrawlerPost) -> (r: Option<String>)
    ensures
        valid_epoch_seconds(post.created_utc as int) ==> (r matches Some(p) && p@
            == spec_file_path(folder@, *post, iso_date_of(post.created_utc as int))),
        !valid_epoch_seconds(post.created_utc as int) ==> r is None,
{
    if crate::dates::is_valid_epoch_seconds(post.created_utc) {
        Some(build_file_path(folder, post))
    } else {
        None
    }
}

} // verus!
