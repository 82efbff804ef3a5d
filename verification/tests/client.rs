use reddit::client::{
    comments_from_response, comments_url, listing_from_response, listing_url, user_agent, DEFAULT_PLATFORM,
    DEFAULT_REDDIT_USERNAME,
};
use reddit::RedditError;

const EMPTY_LISTING: &str = "{\"kind\":\"Listing\",\"data\":{\"modhash\":\"\",\"children\":[]}}";

const SEARCH: &str = "https://www.reddit.com/subreddits/search.json?q=gfdghfj&include_over_18=on";

#[test]
fn user_agent_has_the_form_reddit_asks_for() {
    assert_eq!(user_agent("pc", "reddit", "0.1.0", "deleted"), "pc:reddit:v0.1.0 (by /u/deleted)");
    assert_eq!(user_agent("", "", "", ""), "::v (by /u/)");
    assert_eq!(
        user_agent(DEFAULT_PLATFORM, "scraper", "2.0", DEFAULT_REDDIT_USERNAME),
        "pc:scraper:v2.0 (by /u/deleted)"
    );
}

#[test]
fn listing_url_names_subreddit_and_limit() {
    assert_eq!(listing_url("aww", 25), "https://www.reddit.com/r/aww.json?limit=25");
    assert_eq!(listing_url("MEOW_IRL", 100), "https://www.reddit.com/r/MEOW_IRL.json?limit=100");
    assert_eq!(listing_url("cats", 0), "https://www.reddit.com/r/cats.json?limit=0");
    assert_eq!(listing_url("cats", 7), "https://www.reddit.com/r/cats.json?limit=7");
    assert_eq!(listing_url("cats", 10), "https://www.reddit.com/r/cats.json?limit=10");
    assert_eq!(listing_url("cats", 1090), "https://www.reddit.com/r/cats.json?limit=1090");
    assert_eq!(
        listing_url("cats", usize::MAX),
        format!("https://www.reddit.com/r/cats.json?limit={}", usize::MAX)
    );
}

#[test]
fn comments_url_names_subreddit_and_post() {
    assert_eq!(
        comments_url("dankmemes", "h966lq"),
        "https://www.reddit.com/r/dankmemes/comments/h966lq.json"
    );
    assert_eq!(comments_url("", ""), "https://www.reddit.com/r//comments/.json");
}

#[test]
fn invalid_subreddit() {
    let error = listing_from_response(302, Some(SEARCH), "").unwrap_err();
    assert!(error.is_subreddit_not_found(), "error = {error:#?}");
}

#[test]
fn missing_subreddit_is_found_without_reading_the_body() {
    let error = listing_from_response(302, Some(SEARCH), EMPTY_LISTING).unwrap_err();
    assert!(matches!(error, RedditError::SubredditNotFound));
    let error = comments_from_response(301, Some(SEARCH), "not json").unwrap_err();
    assert!(error.is_subreddit_not_found());
}

#[test]
fn error_status_is_kept() {
    for status in [302u16, 404, 429, 500] {
        let error = listing_from_response(status, Some("https://www.reddit.com/"), EMPTY_LISTING).unwrap_err();
        assert!(matches!(error, RedditError::HttpStatus(code) if code == status));
        assert!(!error.is_subreddit_not_found());
        let error = comments_from_response(status, None, "[]").unwrap_err();
        assert!(matches!(error, RedditError::HttpStatus(code) if code == status));
    }
}

#[test]
fn success_decodes_the_body() {
    let thing = listing_from_response(200, None, EMPTY_LISTING).unwrap();
    assert!(thing.data.as_listing().unwrap().children.is_empty());
    let thing = listing_from_response(200, Some(SEARCH), EMPTY_LISTING).unwrap();
    assert!(thing.data.as_listing().is_some());
    let text = format!("[{},{}]", EMPTY_LISTING, EMPTY_LISTING);
    let things = comments_from_response(200, None, &text).unwrap();
    assert_eq!(things.len(), 2);
    assert!(things[0].data.as_listing().is_some());
}

#[test]
fn success_with_a_bad_body_is_a_decode_error() {
    match listing_from_response(200, None, "<html>").unwrap_err() {
        RedditError::Json { data, error } => {
            assert_eq!(data, "<html>");
            assert_eq!((error.line, error.column), (1, 1));
            assert_eq!(error.message, "expected value at line 1 column 1");
        }
        other => panic!("unexpected: {:?}", other),
    }
    match comments_from_response(204, None, EMPTY_LISTING).unwrap_err() {
        RedditError::Json { data, error } => {
            assert_eq!(data, EMPTY_LISTING);
            assert_eq!(error.message, "invalid type: expected an array");
        }
        other => panic!("unexpected: {:?}", other),
    }
}
