//! Typed decoding of Reddit's JSON envelopes and classification of its
//! HTTP responses.
//!
//! The crate turns the text of a listing or of a comment tree into a tree of
//! [`Thing`] values, and decides from a response's status and redirect target
//! whether the request succeeded, failed, or named a subreddit that does not
//! exist. It performs no I/O: a caller sends the request and hands over what
//! came back.

pub mod classify;
pub mod client;
pub mod decode;
pub mod document;
pub mod error;
pub mod fields;
pub mod json;
pub mod link;
pub mod text;
pub mod types;

pub use crate::error::RedditError;
pub use crate::types::{Link, Listing, PostHint, Thing};
