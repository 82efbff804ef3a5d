//! The ways in which fetching and decoding can fail.

use crate::json::Diagnostic;
use vstd::prelude::*;
use vstd::string::*;

verus! {

/// A failure of this library, by kind.
#[derive(Debug)]
pub enum RedditError {
    /// The exchange with the server failed before an answer came.
    Transport {
        /// What the transport said of the failure.
        message: String,
    },
    /// The server answered with a status that is neither a success nor the
    /// redirect that stands for a missing subreddit.
    HttpStatus(u16),
    /// The body could not be decoded.
    Json {
        /// The document that was being decoded.
        data: String,
        /// Where and why decoding stopped.
        error: Diagnostic,
    },
    /// The subreddit does not exist.
    SubredditNotFound,
}

impl RedditError {
    /// Whether this is [`RedditError::SubredditNotFound`].
    pub fn is_subreddit_not_found(&self) -> (found: bool)
        ensures
            found == (self is SubredditNotFound),
    {
        match self {
            RedditError::SubredditNotFound => true,
            _ => false,
        }
    }

    /// What the error says of itself in one line.
    pub open spec fn summary(self) -> Seq<char> {
        match self {
            RedditError::Transport { message } => message@,
            RedditError::HttpStatus(_) => "the server answered with an error status"@,
            RedditError::Json { .. } => "failed to parse json"@,
            RedditError::SubredditNotFound => "failed to locate the subreddit"@,
        }
    }

    /// Describes the error in one line.
    pub fn message(&self) -> (text: String)
        ensures
            text@ == self.summary(),
    {
        match self {
            RedditError::Transport { message } => message.clone(),
            RedditError::HttpStatus(_) => String::from_str("the server answered with an error status"),
            RedditError::Json { .. } => String::from_str("failed to parse json"),
            RedditError::SubredditNotFound => String::from_str("failed to locate the subreddit"),
        }
    }
}

} // verus!
