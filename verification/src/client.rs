//! What a client of Reddit's API sends, and what it makes of the answer.
//!
//! Nothing here touches the network. A caller builds the request from
//! [`listing_url`] or [`comments_url`] and [`user_agent`], sends it without
//! following redirects, and hands the status, the `Location` header and the
//! body to [`listing_from_response`] or [`comments_from_response`].

use crate::classify::{classification, classify, location_of, Classification};
use crate::decode::{thing_holds, things_hold};
use crate::document::{
    decode_thing, decode_things_document, is_decode_error, thing_document_fault, things_document_fault,
};
use crate::error::RedditError;
use crate::json::parsed;
use crate::text::{decimal, push_decimal};
use crate::types::Thing;
use vstd::prelude::*;
use vstd::string::*;

verus! {

/// The platform named in the user agent where the caller names none.
pub const DEFAULT_PLATFORM: &'static str = "pc";

/// The account named in the user agent where the caller names none.
pub const DEFAULT_REDDIT_USERNAME: &'static str = "deleted";

/// The user agent that Reddit asks of its clients.
pub open spec fn user_agent_text(
    platform: Seq<char>,
    app_id: Seq<char>,
    app_version: Seq<char>,
    reddit_username: Seq<char>,
) -> Seq<char> {
    platform + ":"@ + app_id + ":v"@ + app_version + " (by /u/"@ + reddit_username + ")"@
}

/// The address of the first page of a subreddit, with `limit` posts asked
/// for.
pub open spec fn listing_url_text(subreddit: Seq<char>, limit: nat) -> Seq<char> {
    "https://www.reddit.com/r/"@ + subreddit + ".json?limit="@ + decimal(limit)
}

/// The address of the comments of a post.
pub open spec fn comments_url_text(subreddit: Seq<char>, post_id: Seq<char>) -> Seq<char> {
    "https://www.reddit.com/r/"@ + subreddit + "/comments/"@ + post_id + ".json"@
}

/// Builds the user agent `{platform}:{app_id}:v{app_version} (by
/// /u/{reddit_username})`.
pub fn user_agent(platform: &str, app_id: &str, app_version: &str, reddit_username: &str) -> (agent: String)
    ensures
        agent@ == user_agent_text(platform@, app_id@, app_version@, reddit_username@),
{
    let mut agent = String::from_str(platform);
    agent.append(":");
    agent.append(app_id);
    agent.append(":v");
    agent.append(app_version);
    agent.append(" (by /u/");
    agent.append(reddit_username);
    agent.append(")");
    agent
}

/// Builds the address of the first page of a subreddit.
pub fn listing_url(subreddit: &str, limit: usize) -> (url: String)
    ensures
        url@ == listing_url_text(subreddit@, limit as nat),
{
    let mut url = String::from_str("https://www.reddit.com/r/");
    url.append(subreddit);
    url.append(".json?limit=");
    push_decimal(&mut url, limit);
    url
}

/// Builds the address of the comments of a post.
pub fn comments_url(subreddit: &str, post_id: &str) -> (url: String)
    ensures
        url@ == comments_url_text(subreddit@, post_id@),
{
    let mut url = String::from_str("https://www.reddit.com/r/");
    url.append(subreddit);
    url.append("/comments/");
    url.append(post_id);
    url.append(".json");
    url
}

/// What is made of the answer to a listing request: the decoded envelope
/// where the status is a success, and otherwise the error that the status
/// and the redirect target stand for. The body is looked at only after a
/// success.
pub fn listing_from_response(status: u16, location: Option<&str>, body: &str) -> (outcome: Result<
    Thing,
    RedditError,
>)
    ensures
        match classification(status, location_of(location)) {
            Classification::Success => match outcome {
                Ok(thing) => thing_document_fault(body@) is None && thing_holds(thing, parsed(body@)->Ok_0),
                Err(error) => is_decode_error(error, body@, thing_document_fault(body@)),
            },
            Classification::ResourceNotFound => outcome is Err && outcome->Err_0 is SubredditNotFound,
            Classification::HttpError(code) => outcome is Err && outcome->Err_0 == RedditError::HttpStatus(code),
        },
{
    match classify(status, location) {
        Classification::Success => decode_thing(body),
        Classification::ResourceNotFound => Err(RedditError::SubredditNotFound),
        Classification::HttpError(code) => Err(RedditError::HttpStatus(code)),
    }
}

/// What is made of the answer to a request for a post's comments: the
/// decoded envelopes where the status is a success, and otherwise the error
/// that the status and the redirect target stand for.
pub fn comments_from_response(status: u16, location: Option<&str>, body: &str) -> (outcome: Result<
    Vec<Thing>,
    RedditError,
>)
    ensures
        match classification(status, location_of(location)) {
            Classification::Success => match outcome {
                Ok(things) => things_document_fault(body@) is None && things_hold(
                    things@,
                    parsed(body@)->Ok_0->Array_0,
                ),
                Err(error) => is_decode_error(error, body@, things_document_fault(body@)),
            },
            Classification::ResourceNotFound => outcome is Err && outcome->Err_0 is SubredditNotFound,
            Classification::HttpError(code) => outcome is Err && outcome->Err_0 == RedditError::HttpStatus(code),
        },
{
    match classify(status, location) {
        Classification::Success => decode_things_document(body),
        Classification::ResourceNotFound => Err(RedditError::SubredditNotFound),
        Classification::HttpError(code) => Err(RedditError::HttpStatus(code)),
    }
}

} // verus!
