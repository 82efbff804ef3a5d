//! Decoding links.
//!
//! A link has some seventy members. They are specified and read in groups
//! by what they are about, and the groups are checked in a fixed order: the
//! first fault of a link is the first fault of its first faulty group. The
//! posts that a link was cross-posted from are links themselves, and are
//! decoded last.

use crate::decode::{created_fault, created_holds, flat_votable_fault, flat_votable_holds};
use crate::fields::{
    any_at, bool_at, i64_at, mistyped, mistyped_field, opt_bool_at, opt_hint_at, opt_text_at, opt_u32_at,
    opt_u64_at, read_any, read_bool, read_i64, read_opt_bool, read_opt_hint, read_opt_text, read_opt_u32,
    read_opt_u64, read_text, read_u64, text_at, text_of, u64_at, yields, Checked,
};
use crate::json::{items_of, lemma_field_smaller, Diagnostic, DiagnosticView, Json, JsonValue};
use crate::types::{Created, Link, PostHint, Votable};
use vstd::prelude::*;

verus! {

/// The first fault in the members of a link about its author.
#[verifier::opaque]
pub open spec fn link_author_fault(value: JsonValue) -> Option<DiagnosticView> {
    Checked::start()
        .also(text_at(value, "author"@))
        .also(opt_text_at(value, "author_flair_css_class"@))
        .also(opt_text_at(value, "author_flair_text"@))
        .also(opt_text_at(value, "author_flair_template_id"@))
        .also(opt_text_at(value, "author_flair_text_color"@))
        .also(opt_text_at(value, "author_flair_type"@))
        .also(opt_text_at(value, "author_fullname"@))
        .also(opt_bool_at(value, "author_patreon_flair"@))
        .also(opt_text_at(value, "distinguished"@))
        .fault
}

/// `link` holds what the members about its author say.
#[verifier::opaque]
pub open spec fn link_author_holds(link: Link, value: JsonValue) -> bool {
    &&& yields(text_at(value, "author"@), link.author@)
    &&& yields(opt_text_at(value, "author_flair_css_class"@), text_of(link.author_flair_css_class))
    &&& yields(opt_text_at(value, "author_flair_text"@), text_of(link.author_flair_text))
    &&& yields(opt_text_at(value, "author_flair_template_id"@), text_of(link.author_flair_template_id))
    &&& yields(opt_text_at(value, "author_flair_text_color"@), text_of(link.author_flair_text_color))
    &&& yields(opt_text_at(value, "author_flair_type"@), text_of(link.author_flair_type))
    &&& yields(opt_text_at(value, "author_fullname"@), text_of(link.author_fullname))
    &&& yields(opt_bool_at(value, "author_patreon_flair"@), link.author_patreon_flair)
    &&& yields(opt_text_at(value, "distinguished"@), text_of(link.distinguished))
}

/// The first fault in the members of a link that identify it and give its content.
#[verifier::opaque]
pub open spec fn link_content_fault(value: JsonValue) -> Option<DiagnosticView> {
    Checked::start()
        .also(text_at(value, "id"@))
        .also(text_at(value, "name"@))
        .also(text_at(value, "title"@))
        .also(text_at(value, "url"@))
        .also(text_at(value, "permalink"@))
        .also(text_at(value, "domain"@))
        .also(text_at(value, "selftext"@))
        .also(opt_text_at(value, "selftext_html"@))
        .also(opt_text_at(value, "thumbnail"@))
        .also(opt_u32_at(value, "thumbnail_height"@))
        .also(opt_u32_at(value, "thumbnail_width"@))
        .also(opt_hint_at(value, "post_hint"@))
        .fault
}

/// `link` holds what the members that identify it and give its content say.
#[verifier::opaque]
pub open spec fn link_content_holds(link: Link, value: JsonValue) -> bool {
    &&& yields(text_at(value, "id"@), link.id@)
    &&& yields(text_at(value, "name"@), link.name@)
    &&& yields(text_at(value, "title"@), link.title@)
    &&& yields(text_at(value, "url"@), link.url@)
    &&& yields(text_at(value, "permalink"@), link.permalink@)
    &&& yields(text_at(value, "domain"@), link.domain@)
    &&& yields(text_at(value, "selftext"@), link.selftext@)
    &&& yields(opt_text_at(value, "selftext_html"@), text_of(link.selftext_html))
    &&& yields(opt_text_at(value, "thumbnail"@), text_of(link.thumbnail))
    &&& yields(opt_u32_at(value, "thumbnail_height"@), link.thumbnail_height)
    &&& yields(opt_u32_at(value, "thumbnail_width"@), link.thumbnail_width)
    &&& yields(opt_hint_at(value, "post_hint"@), link.post_hint)
}

/// The first fault in the members of a link about its media.
#[verifier::opaque]
pub open spec fn link_media_fault(value: JsonValue) -> Option<DiagnosticView> {
    Checked::start()
        .also(any_at(value, "media"@))
        .also(any_at(value, "media_embed"@))
        .also(bool_at(value, "media_only"@))
        .also(bool_at(value, "is_video"@))
        .also(bool_at(value, "is_reddit_media_domain"@))
        .also(any_at(value, "edited"@))
        .fault
}

/// `link` holds what the members about its media say.
#[verifier::opaque]
pub open spec fn link_media_holds(link: Link, value: JsonValue) -> bool {
    &&& yields(any_at(value, "media"@), link.media@)
    &&& yields(any_at(value, "media_embed"@), link.media_embed@)
    &&& yields(bool_at(value, "media_only"@), link.media_only)
    &&& yields(bool_at(value, "is_video"@), link.is_video)
    &&& yields(bool_at(value, "is_reddit_media_domain"@), link.is_reddit_media_domain)
    &&& yields(any_at(value, "edited"@), link.edited@)
}

/// The first fault in the members of a link about its flair.
#[verifier::opaque]
pub open spec fn link_flair_fault(value: JsonValue) -> Option<DiagnosticView> {
    Checked::start()
        .also(opt_text_at(value, "link_flair_css_class"@))
        .also(opt_text_at(value, "link_flair_text"@))
        .also(opt_text_at(value, "link_flair_text_color"@))
        .also(text_at(value, "link_flair_type"@))
        .fault
}

/// `link` holds what the members about its flair say.
#[verifier::opaque]
pub open spec fn link_flair_holds(link: Link, value: JsonValue) -> bool {
    &&& yields(opt_text_at(value, "link_flair_css_class"@), text_of(link.link_flair_css_class))
    &&& yields(opt_text_at(value, "link_flair_text"@), text_of(link.link_flair_text))
    &&& yields(opt_text_at(value, "link_flair_text_color"@), text_of(link.link_flair_text_color))
    &&& yields(text_at(value, "link_flair_type"@), link.link_flair_type@)
}

/// The first fault in the members of a link about its subreddit.
#[verifier::opaque]
pub open spec fn link_subreddit_fault(value: JsonValue) -> Option<DiagnosticView> {
    Checked::start()
        .also(opt_text_at(value, "subreddit"@))
        .also(text_at(value, "subreddit_id"@))
        .also(text_at(value, "subreddit_name_prefixed"@))
        .also(u64_at(value, "subreddit_subscribers"@))
        .also(text_at(value, "subreddit_type"@))
        .also(bool_at(value, "quarantine"@))
        .fault
}

/// `link` holds what the members about its subreddit say.
#[verifier::opaque]
pub open spec fn link_subreddit_holds(link: Link, value: JsonValue) -> bool {
    &&& yields(opt_text_at(value, "subreddit"@), text_of(link.subreddit))
    &&& yields(text_at(value, "subreddit_id"@), link.subreddit_id@)
    &&& yields(text_at(value, "subreddit_name_prefixed"@), link.subreddit_name_prefixed@)
    &&& yields(u64_at(value, "subreddit_subscribers"@), link.subreddit_subscribers)
    &&& yields(text_at(value, "subreddit_type"@), link.subreddit_type@)
    &&& yields(bool_at(value, "quarantine"@), link.quarantine)
}

/// The first fault in the members of a link about the reader's dealings with it.
#[verifier::opaque]
pub open spec fn link_reader_fault(value: JsonValue) -> Option<DiagnosticView> {
    Checked::start()
        .also(bool_at(value, "clicked"@))
        .also(bool_at(value, "hidden"@))
        .also(opt_bool_at(value, "likes"@))
        .also(bool_at(value, "saved"@))
        .also(bool_at(value, "visited"@))
        .fault
}

/// `link` holds what the members about the reader's dealings with it say.
#[verifier::opaque]
pub open spec fn link_reader_holds(link: Link, value: JsonValue) -> bool {
    &&& yields(bool_at(value, "clicked"@), link.clicked)
    &&& yields(bool_at(value, "hidden"@), link.hidden)
    &&& yields(opt_bool_at(value, "likes"@), link.likes)
    &&& yields(bool_at(value, "saved"@), link.saved)
    &&& yields(bool_at(value, "visited"@), link.visited)
}

/// The first fault in the members of a link that are flags of its state.
#[verifier::opaque]
pub open spec fn link_state_fault(value: JsonValue) -> Option<DiagnosticView> {
    Checked::start()
        .also(bool_at(value, "locked"@))
        .also(bool_at(value, "over_18"@))
        .also(bool_at(value, "stickied"@))
        .also(bool_at(value, "archived"@))
        .also(bool_at(value, "pinned"@))
        .also(bool_at(value, "spoiler"@))
        .also(bool_at(value, "is_self"@))
        .also(bool_at(value, "is_meta"@))
        .also(bool_at(value, "is_original_content"@))
        .fault
}

/// `link` holds what the members that are flags of its state say.
#[verifier::opaque]
pub open spec fn link_state_holds(link: Link, value: JsonValue) -> bool {
    &&& yields(bool_at(value, "locked"@), link.locked)
    &&& yields(bool_at(value, "over_18"@), link.over_18)
    &&& yields(bool_at(value, "stickied"@), link.stickied)
    &&& yields(bool_at(value, "archived"@), link.archived)
    &&& yields(bool_at(value, "pinned"@), link.pinned)
    &&& yields(bool_at(value, "spoiler"@), link.spoiler)
    &&& yields(bool_at(value, "is_self"@), link.is_self)
    &&& yields(bool_at(value, "is_meta"@), link.is_meta)
    &&& yields(bool_at(value, "is_original_content"@), link.is_original_content)
}

/// The first fault in the members of a link that say how it may be handled.
#[verifier::opaque]
pub open spec fn link_handling_fault(value: JsonValue) -> Option<DiagnosticView> {
    Checked::start()
        .also(bool_at(value, "is_crosspostable"@))
        .also(bool_at(value, "is_robot_indexable"@))
        .also(bool_at(value, "contest_mode"@))
        .also(bool_at(value, "can_gild"@))
        .also(bool_at(value, "can_mod_post"@))
        .also(bool_at(value, "no_follow"@))
        .also(bool_at(value, "send_replies"@))
        .also(bool_at(value, "hide_score"@))
        .fault
}

/// `link` holds what the members that say how it may be handled say.
#[verifier::opaque]
pub open spec fn link_handling_holds(link: Link, value: JsonValue) -> bool {
    &&& yields(bool_at(value, "is_crosspostable"@), link.is_crosspostable)
    &&& yields(bool_at(value, "is_robot_indexable"@), link.is_robot_indexable)
    &&& yields(bool_at(value, "contest_mode"@), link.contest_mode)
    &&& yields(bool_at(value, "can_gild"@), link.can_gild)
    &&& yields(bool_at(value, "can_mod_post"@), link.can_mod_post)
    &&& yields(bool_at(value, "no_follow"@), link.no_follow)
    &&& yields(bool_at(value, "send_replies"@), link.send_replies)
    &&& yields(bool_at(value, "hide_score"@), link.hide_score)
}

/// The first fault in the members of a link about its scores and standing.
#[verifier::opaque]
pub open spec fn link_standing_fault(value: JsonValue) -> Option<DiagnosticView> {
    Checked::start()
        .also(u64_at(value, "num_comments"@))
        .also(u64_at(value, "num_crossposts"@))
        .also(i64_at(value, "score"@))
        .also(u64_at(value, "gilded"@))
        .also_fault(flat_votable_fault(value))
        .also_fault(created_fault(value))
        .also(opt_text_at(value, "suggested_sort"@))
        .also(opt_u64_at(value, "pwls"@))
        .also(opt_u32_at(value, "wls"@))
        .also(opt_text_at(value, "parent_whitelist_status"@))
        .also(opt_text_at(value, "whitelist_status"@))
        .fault
}

/// `link` holds what the members about its scores and standing say.
#[verifier::opaque]
pub open spec fn link_standing_holds(link: Link, value: JsonValue) -> bool {
    &&& yields(u64_at(value, "num_comments"@), link.num_comments)
    &&& yields(u64_at(value, "num_crossposts"@), link.num_crossposts)
    &&& yields(i64_at(value, "score"@), link.score)
    &&& yields(u64_at(value, "gilded"@), link.gilded)
    &&& flat_votable_holds(link.votable, value)
    &&& created_holds(link.created, value)
    &&& yields(opt_text_at(value, "suggested_sort"@), text_of(link.suggested_sort))
    &&& yields(opt_u64_at(value, "pwls"@), link.pwls)
    &&& yields(opt_u32_at(value, "wls"@), link.wls)
    &&& yields(opt_text_at(value, "parent_whitelist_status"@), text_of(link.parent_whitelist_status))
    &&& yields(opt_text_at(value, "whitelist_status"@), text_of(link.whitelist_status))
}

/// The first fault in the members of `value` as a link, the posts it was
/// cross-posted from left aside.
pub open spec fn link_own_fault(value: JsonValue) -> Option<DiagnosticView> {
    Checked::start()
        .also_fault(link_author_fault(value))
        .also_fault(link_content_fault(value))
        .also_fault(link_media_fault(value))
        .also_fault(link_flair_fault(value))
        .also_fault(link_subreddit_fault(value))
        .also_fault(link_reader_fault(value))
        .also_fault(link_state_fault(value))
        .also_fault(link_handling_fault(value))
        .also_fault(link_standing_fault(value))
        .fault
}

/// `link` holds what the members of `value` say, the posts it was
/// cross-posted from left aside.
pub open spec fn link_own_holds(link: Link, value: JsonValue) -> bool {
    &&& link_author_holds(link, value)
    &&& link_content_holds(link, value)
    &&& link_media_holds(link, value)
    &&& link_flair_holds(link, value)
    &&& link_subreddit_holds(link, value)
    &&& link_reader_holds(link, value)
    &&& link_state_holds(link, value)
    &&& link_handling_holds(link, value)
    &&& link_standing_holds(link, value)
}

/// The first fault in `value` as a link: in its own members, or else in the
/// posts it was cross-posted from, which are links in an array.
pub open spec fn link_fault(value: JsonValue) -> Option<DiagnosticView>
    decreases value, 0nat,
{
    Checked { fault: link_own_fault(value) }.also_fault(
        match value.field("crosspost_parent_list"@) {
            None => None,
            Some(JsonValue::Null) => None,
            Some(JsonValue::Array(items)) => {
                proof {
                    lemma_field_smaller(value, "crosspost_parent_list"@);
                }
                links_fault(items, 0)
            },
            Some(_) => Some(mistyped("crosspost_parent_list"@)),
        },
    ).fault
}

/// The first fault in the items of `items` as links, from position `from` on.
pub open spec fn links_fault(items: Seq<JsonValue>, from: nat) -> Option<DiagnosticView>
    decreases items, items.len() - from,
{
    if from >= items.len() {
        None
    } else {
        Checked { fault: link_fault(items[from as int]) }.also_fault(links_fault(items, from + 1)).fault
    }
}

/// `links` holds what the items of `items` say, one for one and in order.
pub open spec fn links_hold(links: Seq<Link>, items: Seq<JsonValue>) -> bool
    decreases links,
{
    &&& links.len() == items.len()
    &&& forall|i: int| #![trigger links[i]] 0 <= i < links.len() ==> link_holds(links[i], items[i])
}

/// `link` holds what `value` says.
pub open spec fn link_holds(link: Link, value: JsonValue) -> bool
    decreases link,
{
    &&& link_own_holds(link, value)
    &&& match link.crosspost_parent_list {
        None => value.field("crosspost_parent_list"@) is None || value.field("crosspost_parent_list"@) == Some(
            JsonValue::Null,
        ),
        Some(parents) => match value.field("crosspost_parent_list"@) {
            Some(JsonValue::Array(items)) => links_hold(parents@, items),
            _ => false,
        },
    }
}

/// The members of a link about its author, as they were read.
struct AuthorMembers {
    author: String,
    author_flair_css_class: Option<String>,
    author_flair_text: Option<String>,
    author_flair_template_id: Option<String>,
    author_flair_text_color: Option<String>,
    author_flair_type: Option<String>,
    author_fullname: Option<String>,
    author_patreon_flair: Option<bool>,
    distinguished: Option<String>,
}

/// `part` holds what the members about its author say.
#[verifier::opaque]
spec fn author_members_hold(part: AuthorMembers, value: JsonValue) -> bool {
    &&& yields(text_at(value, "author"@), part.author@)
    &&& yields(opt_text_at(value, "author_flair_css_class"@), text_of(part.author_flair_css_class))
    &&& yields(opt_text_at(value, "author_flair_text"@), text_of(part.author_flair_text))
    &&& yields(opt_text_at(value, "author_flair_template_id"@), text_of(part.author_flair_template_id))
    &&& yields(opt_text_at(value, "author_flair_text_color"@), text_of(part.author_flair_text_color))
    &&& yields(opt_text_at(value, "author_flair_type"@), text_of(part.author_flair_type))
    &&& yields(opt_text_at(value, "author_fullname"@), text_of(part.author_fullname))
    &&& yields(opt_bool_at(value, "author_patreon_flair"@), part.author_patreon_flair)
    &&& yields(opt_text_at(value, "distinguished"@), text_of(part.distinguished))
}

/// A link that has the members of `part` holds what they say.
proof fn lemma_author_members_held(link: Link, part: AuthorMembers, value: JsonValue)
    requires
        author_members_hold(part, value),
        link.author == part.author,
        link.author_flair_css_class == part.author_flair_css_class,
        link.author_flair_text == part.author_flair_text,
        link.author_flair_template_id == part.author_flair_template_id,
        link.author_flair_text_color == part.author_flair_text_color,
        link.author_flair_type == part.author_flair_type,
        link.author_fullname == part.author_fullname,
        link.author_patreon_flair == part.author_patreon_flair,
        link.distinguished == part.distinguished,
    ensures
        link_author_holds(link, value),
{
    reveal(author_members_hold);
    reveal(link_author_holds);
}

/// Reads the members of a link about its author.
fn read_author_members(json: &Json) -> (outcome: Result<AuthorMembers, Diagnostic>)
    ensures
        match outcome {
            Ok(part) => link_author_fault(json@) is None && author_members_hold(part, json@),
            Err(fault) => link_author_fault(json@) == Some(fault@),
        },
{
    reveal(link_author_fault);
    reveal(author_members_hold);
    let author = read_text(json, "author")?;
    let author_flair_css_class = read_opt_text(json, "author_flair_css_class")?;
    let author_flair_text = read_opt_text(json, "author_flair_text")?;
    let author_flair_template_id = read_opt_text(json, "author_flair_template_id")?;
    let author_flair_text_color = read_opt_text(json, "author_flair_text_color")?;
    let author_flair_type = read_opt_text(json, "author_flair_type")?;
    let author_fullname = read_opt_text(json, "author_fullname")?;
    let author_patreon_flair = read_opt_bool(json, "author_patreon_flair")?;
    let distinguished = read_opt_text(json, "distinguished")?;
    Ok(
        AuthorMembers {
            author,
            author_flair_css_class,
            author_flair_text,
            author_flair_template_id,
            author_flair_text_color,
            author_flair_type,
            author_fullname,
            author_patreon_flair,
            distinguished,
        },
    )
}

/// The members of a link that identify it and give its content, as they were read.
struct ContentMembers {
    id: String,
    name: String,
    title: String,
    url: String,
    permalink: String,
    domain: String,
    selftext: String,
    selftext_html: Option<String>,
    thumbnail: Option<String>,
    thumbnail_height: Option<u32>,
    thumbnail_width: Option<u32>,
    post_hint: Option<PostHint>,
}

/// `part` holds what the members that identify it and give its content say.
#[verifier::opaque]
spec fn content_members_hold(part: ContentMembers, value: JsonValue) -> bool {
    &&& yields(text_at(value, "id"@), part.id@)
    &&& yields(text_at(value, "name"@), part.name@)
    &&& yields(text_at(value, "title"@), part.title@)
    &&& yields(text_at(value, "url"@), part.url@)
    &&& yields(text_at(value, "permalink"@), part.permalink@)
    &&& yields(text_at(value, "domain"@), part.domain@)
    &&& yields(text_at(value, "selftext"@), part.selftext@)
    &&& yields(opt_text_at(value, "selftext_html"@), text_of(part.selftext_html))
    &&& yields(opt_text_at(value, "thumbnail"@), text_of(part.thumbnail))
    &&& yields(opt_u32_at(value, "thumbnail_height"@), part.thumbnail_height)
    &&& yields(opt_u32_at(value, "thumbnail_width"@), part.thumbnail_width)
    &&& yields(opt_hint_at(value, "post_hint"@), part.post_hint)
}

/// A link that has the members of `part` holds what they say.
proof fn lemma_content_members_held(link: Link, part: ContentMembers, value: JsonValue)
    requires
        content_members_hold(part, value),
        link.id == part.id,
        link.name == part.name,
        link.title == part.title,
        link.url == part.url,
        link.permalink == part.permalink,
        link.domain == part.domain,
        link.selftext == part.selftext,
        link.selftext_html == part.selftext_html,
        link.thumbnail == part.thumbnail,
        link.thumbnail_height == part.thumbnail_height,
        link.thumbnail_width == part.thumbnail_width,
        link.post_hint == part.post_hint,
    ensures
        link_content_holds(link, value),
{
    reveal(content_members_hold);
    reveal(link_content_holds);
}

/// Reads the members of a link that identify it and give its content.
fn read_content_members(json: &Json) -> (outcome: Result<ContentMembers, Diagnostic>)
    ensures
        match outcome {
            Ok(part) => link_content_fault(json@) is None && content_members_hold(part, json@),
            Err(fault) => link_content_fault(json@) == Some(fault@),
        },
{
    reveal(link_content_fault);
    reveal(content_members_hold);
    let id = read_text(json, "id")?;
    let name = read_text(json, "name")?;
    let title = read_text(json, "title")?;
    let url = read_text(json, "url")?;
    let permalink = read_text(json, "permalink")?;
    let domain = read_text(json, "domain")?;
    let selftext = read_text(json, "selftext")?;
    let selftext_html = read_opt_text(json, "selftext_html")?;
    let thumbnail = read_opt_text(json, "thumbnail")?;
    let thumbnail_height = read_opt_u32(json, "thumbnail_height")?;
    let thumbnail_width = read_opt_u32(json, "thumbnail_width")?;
    let post_hint = read_opt_hint(json, "post_hint")?;
    Ok(
        ContentMembers {
            id,
            name,
            title,
            url,
            permalink,
            domain,
            selftext,
            selftext_html,
            thumbnail,
            thumbnail_height,
            thumbnail_width,
            post_hint,
        },
    )
}

/// The members of a link about its media, as they were read.
struct MediaMembers {
    media: Json,
    media_embed: Json,
    media_only: bool,
    is_video: bool,
    is_reddit_media_domain: bool,
    edited: Json,
}

/// `part` holds what the members about its media say.
#[verifier::opaque]
spec fn media_members_hold(part: MediaMembers, value: JsonValue) -> bool {
    &&& yields(any_at(value, "media"@), part.media@)
    &&& yields(any_at(value, "media_embed"@), part.media_embed@)
    &&& yields(bool_at(value, "media_only"@), part.media_only)
    &&& yields(bool_at(value, "is_video"@), part.is_video)
    &&& yields(bool_at(value, "is_reddit_media_domain"@), part.is_reddit_media_domain)
    &&& yields(any_at(value, "edited"@), part.edited@)
}

/// A link that has the members of `part` holds what they say.
proof fn lemma_media_members_held(link: Link, part: MediaMembers, value: JsonValue)
    requires
        media_members_hold(part, value),
        link.media == part.media,
        link.media_embed == part.media_embed,
        link.media_only == part.media_only,
        link.is_video == part.is_video,
        link.is_reddit_media_domain == part.is_reddit_media_domain,
        link.edited == part.edited,
    ensures
        link_media_holds(link, value),
{
    reveal(media_members_hold);
    reveal(link_media_holds);
}

/// Reads the members of a link about its media.
fn read_media_members(json: &Json) -> (outcome: Result<MediaMembers, Diagnostic>)
    ensures
        match outcome {
            Ok(part) => link_media_fault(json@) is None && media_members_hold(part, json@),
            Err(fault) => link_media_fault(json@) == Some(fault@),
        },
{
    reveal(link_media_fault);
    reveal(media_members_hold);
    let media = read_any(json, "media")?;
    let media_embed = read_any(json, "media_embed")?;
    let media_only = read_bool(json, "media_only")?;
    let is_video = read_bool(json, "is_video")?;
    let is_reddit_media_domain = read_bool(json, "is_reddit_media_domain")?;
    let edited = read_any(json, "edited")?;
    Ok(
        MediaMembers {
            media,
            media_embed,
            media_only,
            is_video,
            is_reddit_media_domain,
            edited,
        },
    )
}

/// The members of a link about its flair, as they were read.
struct FlairMembers {
    link_flair_css_class: Option<String>,
    link_flair_text: Option<String>,
    link_flair_text_color: Option<String>,
    link_flair_type: String,
}

/// `part` holds what the members about its flair say.
#[verifier::opaque]
spec fn flair_members_hold(part: FlairMembers, value: JsonValue) -> bool {
    &&& yields(opt_text_at(value, "link_flair_css_class"@), text_of(part.link_flair_css_class))
    &&& yields(opt_text_at(value, "link_flair_text"@), text_of(part.link_flair_text))
    &&& yields(opt_text_at(value, "link_flair_text_color"@), text_of(part.link_flair_text_color))
    &&& yields(text_at(value, "link_flair_type"@), part.link_flair_type@)
}

/// A link that has the members of `part` holds what they say.
proof fn lemma_flair_members_held(link: Link, part: FlairMembers, value: JsonValue)
    requires
        flair_members_hold(part, value),
        link.link_flair_css_class == part.link_flair_css_class,
        link.link_flair_text == part.link_flair_text,
        link.link_flair_text_color == part.link_flair_text_color,
        link.link_flair_type == part.link_flair_type,
    ensures
        link_flair_holds(link, value),
{
    reveal(flair_members_hold);
    reveal(link_flair_holds);
}

/// Reads the members of a link about its flair.
fn read_flair_members(json: &Json) -> (outcome: Result<FlairMembers, Diagnostic>)
    ensures
        match outcome {
            Ok(part) => link_flair_fault(json@) is None && flair_members_hold(part, json@),
            Err(fault) => link_flair_fault(json@) == Some(fault@),
        },
{
    reveal(link_flair_fault);
    reveal(flair_members_hold);
    let link_flair_css_class = read_opt_text(json, "link_flair_css_class")?;
    let link_flair_text = read_opt_text(json, "link_flair_text")?;
    let link_flair_text_color = read_opt_text(json, "link_flair_text_color")?;
    let link_flair_type = read_text(json, "link_flair_type")?;
    Ok(
        FlairMembers {
            link_flair_css_class,
            link_flair_text,
            link_flair_text_color,
            link_flair_type,
        },
    )
}

/// The members of a link about its subreddit, as they were read.
struct SubredditMembers {
    subreddit: Option<String>,
    subreddit_id: String,
    subreddit_name_prefixed: String,
    subreddit_subscribers: u64,
    subreddit_type: String,
    quarantine: bool,
}

/// `part` holds what the members about its subreddit say.
#[verifier::opaque]
spec fn subreddit_members_hold(part: SubredditMembers, value: JsonValue) -> bool {
    &&& yields(opt_text_at(value, "subreddit"@), text_of(part.subreddit))
    &&& yields(text_at(value, "subreddit_id"@), part.subreddit_id@)
    &&& yields(text_at(value, "subreddit_name_prefixed"@), part.subreddit_name_prefixed@)
    &&& yields(u64_at(value, "subreddit_subscribers"@), part.subreddit_subscribers)
    &&& yields(text_at(value, "subreddit_type"@), part.subreddit_type@)
    &&& yields(bool_at(value, "quarantine"@), part.quarantine)
}

/// A link that has the members of `part` holds what they say.
proof fn lemma_subreddit_members_held(link: Link, part: SubredditMembers, value: JsonValue)
    requires
        subreddit_members_hold(part, value),
        link.subreddit == part.subreddit,
        link.subreddit_id == part.subreddit_id,
        link.subreddit_name_prefixed == part.subreddit_name_prefixed,
        link.subreddit_subscribers == part.subreddit_subscribers,
        link.subreddit_type == part.subreddit_type,
        link.quarantine == part.quarantine,
    ensures
        link_subreddit_holds(link, value),
{
    reveal(subreddit_members_hold);
    reveal(link_subreddit_holds);
}

/// Reads the members of a link about its subreddit.
fn read_subreddit_members(json: &Json) -> (outcome: Result<SubredditMembers, Diagnostic>)
    ensures
        match outcome {
            Ok(part) => link_subreddit_fault(json@) is None && subreddit_members_hold(part, json@),
            Err(fault) => link_subreddit_fault(json@) == Some(fault@),
        },
{
    reveal(link_subreddit_fault);
    reveal(subreddit_members_hold);
    let subreddit = read_opt_text(json, "subreddit")?;
    let subreddit_id = read_text(json, "subreddit_id")?;
    let subreddit_name_prefixed = read_text(json, "subreddit_name_prefixed")?;
    let subreddit_subscribers = read_u64(json, "subreddit_subscribers")?;
    let subreddit_type = read_text(json, "subreddit_type")?;
    let quarantine = read_bool(json, "quarantine")?;
    Ok(
        SubredditMembers {
            subreddit,
            subreddit_id,
            subreddit_name_prefixed,
            subreddit_subscribers,
            subreddit_type,
            quarantine,
        },
    )
}

/// The members of a link about the reader's dealings with it, as they were read.
struct ReaderMembers {
    clicked: bool,
    hidden: bool,
    likes: Option<bool>,
    saved: bool,
    visited: bool,
}

/// `part` holds what the members about the reader's dealings with it say.
#[verifier::opaque]
spec fn reader_members_hold(part: ReaderMembers, value: JsonValue) -> bool {
    &&& yields(bool_at(value, "clicked"@), part.clicked)
    &&& yields(bool_at(value, "hidden"@), part.hidden)
    &&& yields(opt_bool_at(value, "likes"@), part.likes)
    &&& yields(bool_at(value, "saved"@), part.saved)
    &&& yields(bool_at(value, "visited"@), part.visited)
}

/// A link that has the members of `part` holds what they say.
proof fn lemma_reader_members_held(link: Link, part: ReaderMembers, value: JsonValue)
    requires
        reader_members_hold(part, value),
        link.clicked == part.clicked,
        link.hidden == part.hidden,
        link.likes == part.likes,
        link.saved == part.saved,
        link.visited == part.visited,
    ensures
        link_reader_holds(link, value),
{
    reveal(reader_members_hold);
    reveal(link_reader_holds);
}

/// Reads the members of a link about the reader's dealings with it.
fn read_reader_members(json: &Json) -> (outcome: Result<ReaderMembers, Diagnostic>)
    ensures
        match outcome {
            Ok(part) => link_reader_fault(json@) is None && reader_members_hold(part, json@),
            Err(fault) => link_reader_fault(json@) == Some(fault@),
        },
{
    reveal(link_reader_fault);
    reveal(reader_members_hold);
    let clicked = read_bool(json, "clicked")?;
    let hidden = read_bool(json, "hidden")?;
    let likes = read_opt_bool(json, "likes")?;
    let saved = read_bool(json, "saved")?;
    let visited = read_bool(json, "visited")?;
    Ok(
        ReaderMembers {
            clicked,
            hidden,
            likes,
            saved,
            visited,
        },
    )
}

/// The members of a link that are flags of its state, as they were read.
struct StateMembers {
    locked: bool,
    over_18: bool,
    stickied: bool,
    archived: bool,
    pinned: bool,
    spoiler: bool,
    is_self: bool,
    is_meta: bool,
    is_original_content: bool,
}

/// `part` holds what the members that are flags of its state say.
#[verifier::opaque]
spec fn state_members_hold(part: StateMembers, value: JsonValue) -> bool {
    &&& yields(bool_at(value, "locked"@), part.locked)
    &&& yields(bool_at(value, "over_18"@), part.over_18)
    &&& yields(bool_at(value, "stickied"@), part.stickied)
    &&& yields(bool_at(value, "archived"@), part.archived)
    &&& yields(bool_at(value, "pinned"@), part.pinned)
    &&& yields(bool_at(value, "spoiler"@), part.spoiler)
    &&& yields(bool_at(value, "is_self"@), part.is_self)
    &&& yields(bool_at(value, "is_meta"@), part.is_meta)
    &&& yields(bool_at(value, "is_original_content"@), part.is_original_content)
}

/// A link that has the members of `part` holds what they say.
proof fn lemma_state_members_held(link: Link, part: StateMembers, value: JsonValue)
    requires
        state_members_hold(part, value),
        link.locked == part.locked,
        link.over_18 == part.over_18,
        link.stickied == part.stickied,
        link.archived == part.archived,
        link.pinned == part.pinned,
        link.spoiler == part.spoiler,
        link.is_self == part.is_self,
        link.is_meta == part.is_meta,
        link.is_original_content == part.is_original_content,
    ensures
        link_state_holds(link, value),
{
    reveal(state_members_hold);
    reveal(link_state_holds);
}

/// Reads the members of a link that are flags of its state.
fn read_state_members(json: &Json) -> (outcome: Result<StateMembers, Diagnostic>)
    ensures
        match outcome {
            Ok(part) => link_state_fault(json@) is None && state_members_hold(part, json@),
            Err(fault) => link_state_fault(json@) == Some(fault@),
        },
{
    reveal(link_state_fault);
    reveal(state_members_hold);
    let locked = read_bool(json, "locked")?;
    let over_18 = read_bool(json, "over_18")?;
    let stickied = read_bool(json, "stickied")?;
    let archived = read_bool(json, "archived")?;
    let pinned = read_bool(json, "pinned")?;
    let spoiler = read_bool(json, "spoiler")?;
    let is_self = read_bool(json, "is_self")?;
    let is_meta = read_bool(json, "is_meta")?;
    let is_original_content = read_bool(json, "is_original_content")?;
    Ok(
        StateMembers {
            locked,
            over_18,
            stickied,
            archived,
            pinned,
            spoiler,
            is_self,
            is_meta,
            is_original_content,
        },
    )
}

/// The members of a link that say how it may be handled, as they were read.
struct HandlingMembers {
    is_crosspostable: bool,
    is_robot_indexable: bool,
    contest_mode: bool,
    can_gild: bool,
    can_mod_post: bool,
    no_follow: bool,
    send_replies: bool,
    hide_score: bool,
}

/// `part` holds what the members that say how it may be handled say.
#[verifier::opaque]
spec fn handling_members_hold(part: HandlingMembers, value: JsonValue) -> bool {
    &&& yields(bool_at(value, "is_crosspostable"@), part.is_crosspostable)
    &&& yields(bool_at(value, "is_robot_indexable"@), part.is_robot_indexable)
    &&& yields(bool_at(value, "contest_mode"@), part.contest_mode)
    &&& yields(bool_at(value, "can_gild"@), part.can_gild)
    &&& yields(bool_at(value, "can_mod_post"@), part.can_mod_post)
    &&& yields(bool_at(value, "no_follow"@), part.no_follow)
    &&& yields(bool_at(value, "send_replies"@), part.send_replies)
    &&& yields(bool_at(value, "hide_score"@), part.hide_score)
}

/// A link that has the members of `part` holds what they say.
proof fn lemma_handling_members_held(link: Link, part: HandlingMembers, value: JsonValue)
    requires
        handling_members_hold(part, value),
        link.is_crosspostable == part.is_crosspostable,
        link.is_robot_indexable == part.is_robot_indexable,
        link.contest_mode == part.contest_mode,
        link.can_gild == part.can_gild,
        link.can_mod_post == part.can_mod_post,
        link.no_follow == part.no_follow,
        link.send_replies == part.send_replies,
        link.hide_score == part.hide_score,
    ensures
        link_handling_holds(link, value),
{
    reveal(handling_members_hold);
    reveal(link_handling_holds);
}

/// Reads the members of a link that say how it may be handled.
fn read_handling_members(json: &Json) -> (outcome: Result<HandlingMembers, Diagnostic>)
    ensures
        match outcome {
            Ok(part) => link_handling_fault(json@) is None && handling_members_hold(part, json@),
            Err(fault) => link_handling_fault(json@) == Some(fault@),
        },
{
    reveal(link_handling_fault);
    reveal(handling_members_hold);
    let is_crosspostable = read_bool(json, "is_crosspostable")?;
    let is_robot_indexable = read_bool(json, "is_robot_indexable")?;
    let contest_mode = read_bool(json, "contest_mode")?;
    let can_gild = read_bool(json, "can_gild")?;
    let can_mod_post = read_bool(json, "can_mod_post")?;
    let no_follow = read_bool(json, "no_follow")?;
    let send_replies = read_bool(json, "send_replies")?;
    let hide_score = read_bool(json, "hide_score")?;
    Ok(
        HandlingMembers {
            is_crosspostable,
            is_robot_indexable,
            contest_mode,
            can_gild,
            can_mod_post,
            no_follow,
            send_replies,
            hide_score,
        },
    )
}

/// The members of a link about its scores and standing, as they were read.
struct StandingMembers {
    num_comments: u64,
    num_crossposts: u64,
    score: i64,
    gilded: u64,
    votable: Votable,
    created: Created,
    suggested_sort: Option<String>,
    pwls: Option<u64>,
    wls: Option<u32>,
    parent_whitelist_status: Option<String>,
    whitelist_status: Option<String>,
}

/// `part` holds what the members about its scores and standing say.
#[verifier::opaque]
spec fn standing_members_hold(part: StandingMembers, value: JsonValue) -> bool {
    &&& yields(u64_at(value, "num_comments"@), part.num_comments)
    &&& yields(u64_at(value, "num_crossposts"@), part.num_crossposts)
    &&& yields(i64_at(value, "score"@), part.score)
    &&& yields(u64_at(value, "gilded"@), part.gilded)
    &&& flat_votable_holds(part.votable, value)
    &&& created_holds(part.created, value)
    &&& yields(opt_text_at(value, "suggested_sort"@), text_of(part.suggested_sort))
    &&& yields(opt_u64_at(value, "pwls"@), part.pwls)
    &&& yields(opt_u32_at(value, "wls"@), part.wls)
    &&& yields(opt_text_at(value, "parent_whitelist_status"@), text_of(part.parent_whitelist_status))
    &&& yields(opt_text_at(value, "whitelist_status"@), text_of(part.whitelist_status))
}

/// A link that has the members of `part` holds what they say.
proof fn lemma_standing_members_held(link: Link, part: StandingMembers, value: JsonValue)
    requires
        standing_members_hold(part, value),
        link.num_comments == part.num_comments,
        link.num_crossposts == part.num_crossposts,
        link.score == part.score,
        link.gilded == part.gilded,
        link.votable == part.votable,
        link.created == part.created,
        link.suggested_sort == part.suggested_sort,
        link.pwls == part.pwls,
        link.wls == part.wls,
        link.parent_whitelist_status == part.parent_whitelist_status,
        link.whitelist_status == part.whitelist_status,
    ensures
        link_standing_holds(link, value),
{
    reveal(standing_members_hold);
    reveal(link_standing_holds);
}

/// Reads the members of a link about its scores and standing.
fn read_standing_members(json: &Json) -> (outcome: Result<StandingMembers, Diagnostic>)
    ensures
        match outcome {
            Ok(part) => link_standing_fault(json@) is None && standing_members_hold(part, json@),
            Err(fault) => link_standing_fault(json@) == Some(fault@),
        },
{
    reveal(link_standing_fault);
    reveal(standing_members_hold);
    let num_comments = read_u64(json, "num_comments")?;
    let num_crossposts = read_u64(json, "num_crossposts")?;
    let score = read_i64(json, "score")?;
    let gilded = read_u64(json, "gilded")?;
    let votable = Votable::from_flattened(json)?;
    let created = Created::from_json(json)?;
    let suggested_sort = read_opt_text(json, "suggested_sort")?;
    let pwls = read_opt_u64(json, "pwls")?;
    let wls = read_opt_u32(json, "wls")?;
    let parent_whitelist_status = read_opt_text(json, "parent_whitelist_status")?;
    let whitelist_status = read_opt_text(json, "whitelist_status")?;
    Ok(
        StandingMembers {
            num_comments,
            num_crossposts,
            score,
            gilded,
            votable,
            created,
            suggested_sort,
            pwls,
            wls,
            parent_whitelist_status,
            whitelist_status,
        },
    )
}

/// Puts a link together from its members.
fn assemble(
    author: AuthorMembers,
    content: ContentMembers,
    media: MediaMembers,
    flair: FlairMembers,
    subreddit: SubredditMembers,
    reader: ReaderMembers,
    state: StateMembers,
    handling: HandlingMembers,
    standing: StandingMembers,
    crosspost_parent_list: Option<Vec<Link>>,
    value: Ghost<JsonValue>,
) -> (link: Link)
    requires
        author_members_hold(author, value@),
        content_members_hold(content, value@),
        media_members_hold(media, value@),
        flair_members_hold(flair, value@),
        subreddit_members_hold(subreddit, value@),
        reader_members_hold(reader, value@),
        state_members_hold(state, value@),
        handling_members_hold(handling, value@),
        standing_members_hold(standing, value@),
    ensures
        link_own_holds(link, value@),
        link.crosspost_parent_list == crosspost_parent_list,
{
    let link =
        Link {
            author: author.author,
            author_flair_css_class: author.author_flair_css_class,
            author_flair_text: author.author_flair_text,
            clicked: reader.clicked,
            domain: content.domain,
            hidden: reader.hidden,
            is_self: state.is_self,
            likes: reader.likes,
            link_flair_css_class: flair.link_flair_css_class,
            link_flair_text: flair.link_flair_text,
            locked: state.locked,
            media: media.media,
            media_embed: media.media_embed,
            num_comments: standing.num_comments,
            over_18: state.over_18,
            permalink: content.permalink,
            saved: reader.saved,
            score: standing.score,
            selftext: content.selftext,
            selftext_html: content.selftext_html,
            subreddit: subreddit.subreddit,
            subreddit_id: subreddit.subreddit_id,
            thumbnail: content.thumbnail,
            title: content.title,
            url: content.url,
            edited: media.edited,
            distinguished: author.distinguished,
            stickied: state.stickied,
            votable: standing.votable,
            created: standing.created,
            archived: state.archived,
            author_flair_template_id: author.author_flair_template_id,
            author_flair_text_color: author.author_flair_text_color,
            author_flair_type: author.author_flair_type,
            author_fullname: author.author_fullname,
            author_patreon_flair: author.author_patreon_flair,
            can_gild: handling.can_gild,
            can_mod_post: handling.can_mod_post,
            contest_mode: handling.contest_mode,
            crosspost_parent_list,
            gilded: standing.gilded,
            hide_score: handling.hide_score,
            id: content.id,
            is_crosspostable: handling.is_crosspostable,
            is_meta: state.is_meta,
            is_original_content: state.is_original_content,
            is_reddit_media_domain: media.is_reddit_media_domain,
            is_robot_indexable: handling.is_robot_indexable,
            is_video: media.is_video,
            link_flair_text_color: flair.link_flair_text_color,
            link_flair_type: flair.link_flair_type,
            media_only: media.media_only,
            name: content.name,
            no_follow: handling.no_follow,
            num_crossposts: standing.num_crossposts,
            parent_whitelist_status: standing.parent_whitelist_status,
            pinned: state.pinned,
            post_hint: content.post_hint,
            pwls: standing.pwls,
            quarantine: subreddit.quarantine,
            send_replies: handling.send_replies,
            spoiler: state.spoiler,
            subreddit_name_prefixed: subreddit.subreddit_name_prefixed,
            subreddit_subscribers: subreddit.subreddit_subscribers,
            subreddit_type: subreddit.subreddit_type,
            suggested_sort: standing.suggested_sort,
            thumbnail_height: content.thumbnail_height,
            thumbnail_width: content.thumbnail_width,
            visited: reader.visited,
            whitelist_status: standing.whitelist_status,
            wls: standing.wls,
        };
    proof {
        lemma_author_members_held(link, author, value@);
        lemma_content_members_held(link, content, value@);
        lemma_media_members_held(link, media, value@);
        lemma_flair_members_held(link, flair, value@);
        lemma_subreddit_members_held(link, subreddit, value@);
        lemma_reader_members_held(link, reader, value@);
        lemma_state_members_held(link, state, value@);
        lemma_handling_members_held(link, handling, value@);
        lemma_standing_members_held(link, standing, value@);
    }
    link
}

impl Link {
    /// Decodes a link, and in it the links it was cross-posted from.
    pub fn from_json(json: &Json) -> (outcome: Result<Link, Diagnostic>)
        ensures
            match outcome {
                Ok(link) => link_fault(json@) is None && link_holds(link, json@),
                Err(fault) => link_fault(json@) == Some(fault@),
            },
        decreases json@, 0nat,
    {
        let author = read_author_members(json)?;
        let content = read_content_members(json)?;
        let media = read_media_members(json)?;
        let flair = read_flair_members(json)?;
        let subreddit = read_subreddit_members(json)?;
        let reader = read_reader_members(json)?;
        let state = read_state_members(json)?;
        let handling = read_handling_members(json)?;
        let standing = read_standing_members(json)?;
        let crosspost_parent_list = match json.get("crosspost_parent_list") {
            None => None,
            Some(Json::Null) => None,
            Some(Json::Array(items)) => {
                proof {
                    lemma_field_smaller(json@, "crosspost_parent_list"@);
                    assert(items_of(items@) =~= json@.field("crosspost_parent_list"@)->Some_0->Array_0);
                }
                Some(decode_links(items)?)
            },
            Some(_) => {
                return Err(mistyped_field("crosspost_parent_list"));
            },
        };
        Ok(assemble(author, content, media, flair, subreddit, reader, state, handling, standing, crosspost_parent_list, Ghost(json@)))
    }
}

/// Decodes each item of `items` as a link, in order, and stops at the first
/// that has a fault.
pub fn decode_links(items: &Vec<Json>) -> (outcome: Result<Vec<Link>, Diagnostic>)
    ensures
        match outcome {
            Ok(links) => links_fault(items_of(items@), 0) is None && links_hold(links@, items_of(items@)),
            Err(fault) => links_fault(items_of(items@), 0) == Some(fault@),
        },
    decreases items_of(items@), 1nat,
{
    let ghost values = items_of(items@);
    let mut links: Vec<Link> = Vec::new();
    let mut i: usize = 0;
    while i < items.len()
        invariant
            i <= items@.len(),
            values == items_of(items@),
            links@.len() == i,
            forall|k: int| #![trigger links@[k]] 0 <= k < i ==> link_holds(links@[k], values[k]),
            links_fault(values, 0) == links_fault(values, i as nat),
        decreases items@.len() - i,
    {
        match Link::from_json(&items[i]) {
            Ok(link) => {
                links.push(link);
            },
            Err(fault) => {
                return Err(fault);
            },
        }
        i += 1;
    }
    Ok(links)
}

} // verus!
