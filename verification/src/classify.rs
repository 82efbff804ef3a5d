//! Telling a success from a failure, and a missing subreddit from both.
//!
//! Reddit does not answer a request for a subreddit that does not exist with
//! a 404: it redirects to its subreddit search. A response is therefore
//! classified by its status and, for a redirect, by where it points, without
//! the redirect being followed.

use crate::text::{is_prefix_of, starts_with};
use vstd::prelude::*;

verus! {

/// What a response amounts to.
#[derive(Clone, Copy, Debug, PartialEq, Eq, Structural)]
pub enum Classification {
    /// The status is a success: the body is there to be decoded.
    Success,
    /// The response redirects to the subreddit search: the subreddit does
    /// not exist.
    ResourceNotFound,
    /// Any other status, kept as it came.
    HttpError(u16),
}

/// Where Reddit redirects a request for a subreddit that does not exist.
pub const SEARCH_URL: &'static str = "https://www.reddit.com/subreddits/search.json?";

/// The status is in the 2xx range.
pub open spec fn is_success(status: u16) -> bool {
    200 <= status < 300
}

/// The status is in the 3xx range.
pub open spec fn is_redirect(status: u16) -> bool {
    300 <= status < 400
}

/// The response redirects to the subreddit search.
pub open spec fn redirects_to_search(status: u16, location: Option<Seq<char>>) -> bool {
    is_redirect(status) && location is Some && is_prefix_of(SEARCH_URL@, location->Some_0)
}

/// What a response with this status and this `Location` header amounts to.
pub open spec fn classification(status: u16, location: Option<Seq<char>>) -> Classification {
    if is_success(status) {
        Classification::Success
    } else if redirects_to_search(status, location) {
        Classification::ResourceNotFound
    } else {
        Classification::HttpError(status)
    }
}

/// What an optional string slice stands for.
pub open spec fn location_of(location: Option<&str>) -> Option<Seq<char>> {
    match location {
        Some(target) => Some(target@),
        None => None,
    }
}

/// Classifies a response by its status and its `Location` header, if it has
/// one.
pub fn classify(status: u16, location: Option<&str>) -> (class: Classification)
    ensures
        class == classification(status, location_of(location)),
{
    if 200 <= status && status < 300 {
        Classification::Success
    } else if 300 <= status && status < 400 {
        match location {
            Some(target) => {
                if starts_with(target, SEARCH_URL) {
                    Classification::ResourceNotFound
                } else {
                    Classification::HttpError(status)
                }
            },
            None => Classification::HttpError(status),
        }
    } else {
        Classification::HttpError(status)
    }
}

/// A redirect is a missing subreddit exactly when it points to the subreddit
/// search; any other redirect is an error with the redirect's own status.
pub proof fn lemma_redirect_classification(status: u16, location: Seq<char>)
    requires
        is_redirect(status),
    ensures
        is_prefix_of(SEARCH_URL@, location) ==> classification(status, Some(location))
            == Classification::ResourceNotFound,
        !is_prefix_of(SEARCH_URL@, location) ==> classification(status, Some(location))
            == Classification::HttpError(status),
{
}

/// A success status is a success wherever the response says it points.
pub proof fn lemma_success_whatever_location(status: u16, location: Option<Seq<char>>)
    requires
        is_success(status),
    ensures
        classification(status, location) == Classification::Success,
{
}

} // verus!
