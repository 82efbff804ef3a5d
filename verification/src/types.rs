//! The things that Reddit's API returns.

use crate::json::{Json, Number};
use vstd::prelude::*;

verus! {

/// An envelope: an optional identity and a payload whose shape its kind
/// decides.
#[derive(Debug)]
pub struct Thing {
    /// Short identifier, such as `8xwlg`.
    pub id: Option<String>,
    /// Fullname, such as `t1_c3v7f8u`.
    pub name: Option<String>,
    /// The payload.
    pub data: ThingData,
}

/// The payload of a [`Thing`], one variant for each kind that is decoded.
#[derive(Debug)]
pub enum ThingData {
    /// Kind `Listing`.
    Listing(Box<Listing>),
    /// Kind `more`.
    More(More),
    /// Kind `t1`.
    Comment(Box<Comment>),
    /// Kind `t3`.
    Link(Box<Link>),
}

impl ThingData {
    /// The listing, if this is one.
    pub fn as_listing(&self) -> (found: Option<&Listing>)
        ensures
            match found {
                Some(listing) => *self == ThingData::Listing(Box::new(*listing)),
                None => !(self is Listing),
            },
    {
        match self {
            ThingData::Listing(listing) => Some(listing),
            _ => None,
        }
    }

    /// The listing, for changing in place, if this is one.
    pub fn as_listing_mut(&mut self) -> (found: Option<&mut Listing>)
        ensures
            match found {
                Some(listing) => *old(self) == ThingData::Listing(Box::new(*listing))
                    && *final(self) == ThingData::Listing(Box::new(*final(listing))),
                None => !(*old(self) is Listing) && *final(self) == *old(self),
            },
    {
        match self {
            ThingData::Listing(listing) => Some(listing),
            _ => None,
        }
    }

    /// The listing, if this is one, by value.
    pub fn into_listing(self) -> (found: Option<Box<Listing>>)
        ensures
            match found {
                Some(listing) => self == ThingData::Listing(listing),
                None => !(self is Listing),
            },
    {
        match self {
            ThingData::Listing(listing) => Some(listing),
            _ => None,
        }
    }

    /// The link, if this is one.
    pub fn as_link(&self) -> (found: Option<&Link>)
        ensures
            match found {
                Some(link) => *self == ThingData::Link(Box::new(*link)),
                None => !(self is Link),
            },
    {
        match self {
            ThingData::Link(link) => Some(link),
            _ => None,
        }
    }

    /// The link, if this is one, by value.
    pub fn into_link(self) -> (found: Option<Box<Link>>)
        ensures
            match found {
                Some(link) => self == ThingData::Link(link),
                None => !(self is Link),
            },
    {
        match self {
            ThingData::Link(link) => Some(link),
            _ => None,
        }
    }
}

/// One page of things, with the cursors of the pages around it.
#[derive(Debug)]
pub struct Listing {
    /// Cursor of the page before this one; absent on the first page.
    pub before: Option<String>,
    /// Cursor of the page after this one; absent on the last page.
    pub after: Option<String>,
    /// Opaque session token.
    pub modhash: String,
    /// The things on this page, in display order.
    pub children: Vec<Thing>,
}

/// Vote counts and the reader's own vote, shared by comments and links.
#[derive(Debug)]
pub struct Votable {
    /// Upvotes, as the server reports them (not an exact tally).
    pub ups: i64,
    /// Downvotes, as the server reports them (not an exact tally).
    pub downs: u64,
    /// The reader's vote: up, down, or none.
    pub likes: Option<bool>,
}

/// Creation times, shared by comments and links. Each is the number the
/// document held, integer or not.
#[derive(Debug)]
pub struct Created {
    /// Creation time in seconds of the local epoch; kept for old clients.
    pub created: Number,
    /// Creation time in seconds of the UTC epoch; the one to rely on.
    pub created_utc: Number,
}

/// A comment (kind `t1`).
#[derive(Debug)]
pub struct Comment {
    /// Who approved the comment; absent unless the reader moderates.
    pub approved_by: Option<String>,
    /// Account name of the poster.
    pub author: String,
    /// CSS class of the author's flair.
    pub author_flair_css_class: Option<String>,
    /// Text of the author's flair.
    pub author_flair_text: Option<String>,
    /// Who removed the comment; absent unless the reader moderates.
    pub banned_by: Option<String>,
    /// The raw text, markup included.
    pub body: String,
    /// The text as escaped HTML.
    pub body_html: String,
    /// Edit marker of uneven type, kept as it came.
    pub special: Option<Json>,
    /// How many times the comment was gilded.
    pub gilded: u64,
    /// The reader's vote: up, down, or none.
    pub likes: Option<bool>,
    /// Author of the parent link, where the comment is shown outside its thread.
    pub link_author: Option<String>,
    /// Fullname of the link the comment belongs to.
    pub link_id: String,
    /// Title of the parent link, where the comment is shown outside its thread.
    pub link_title: Option<String>,
    /// URL of the parent link, where the comment is shown outside its thread.
    pub link_url: Option<String>,
    /// Number of reports; absent unless the reader moderates.
    pub num_reports: Option<u64>,
    /// Fullname of what the comment replies to.
    pub parent_id: String,
    /// Whether the reader saved the comment.
    pub saved: bool,
    /// Net score.
    pub score: i64,
    /// Whether the score is hidden for now.
    pub score_hidden: bool,
    /// Subreddit name without the `/r/` prefix.
    pub subreddit: String,
    /// Fullname of the subreddit.
    pub subreddit_id: String,
    /// Moderator or admin distinction, if any.
    pub distinguished: Option<String>,
    /// Vote counts.
    pub votable: Votable,
    /// Creation times.
    pub created: Created,
}

/// A post (kind `t3`).
#[derive(Debug)]
pub struct Link {
    /// Account name of the poster.
    pub author: String,
    /// CSS class of the author's flair.
    pub author_flair_css_class: Option<String>,
    /// Text of the author's flair.
    pub author_flair_text: Option<String>,
    /// Whether the reader has followed the link.
    pub clicked: bool,
    /// Domain the link points to; `self.<subreddit>` for a self post.
    pub domain: String,
    /// Whether the reader has hidden the post.
    pub hidden: bool,
    /// Whether this is a self post.
    pub is_self: bool,
    /// The reader's vote: up, down, or none.
    pub likes: Option<bool>,
    /// CSS class of the link's flair.
    pub link_flair_css_class: Option<String>,
    /// Text of the link's flair.
    pub link_flair_text: Option<String>,
    /// Whether the post is closed to new comments.
    pub locked: bool,
    /// Streaming media description, kept as it came.
    pub media: Json,
    /// Embedding details for the media, kept as they came.
    pub media_embed: Json,
    /// Number of comments, removed ones included.
    pub num_comments: u64,
    /// Whether the post is marked as not safe for work.
    pub over_18: bool,
    /// Relative URL of the post's permanent link.
    pub permalink: String,
    /// Whether the reader saved the post.
    pub saved: bool,
    /// Net score.
    pub score: i64,
    /// Raw text of a self post; empty otherwise.
    pub selftext: String,
    /// Text of a self post as escaped HTML.
    pub selftext_html: Option<String>,
    /// Subreddit name without the `/r/` prefix.
    pub subreddit: Option<String>,
    /// Fullname of the subreddit.
    pub subreddit_id: String,
    /// URL of the thumbnail, or one of the words `self`, `image`, `default`.
    pub thumbnail: Option<String>,
    /// Title of the post.
    pub title: String,
    /// Where the post points; its own permalink for a self post.
    pub url: String,
    /// `false`, or the time of the last edit: kept as it came.
    pub edited: Json,
    /// Moderator or admin distinction, if any.
    pub distinguished: Option<String>,
    /// Whether the post is a sticky of its subreddit.
    pub stickied: bool,
    /// Vote counts.
    pub votable: Votable,
    /// Creation times.
    pub created: Created,
    /// Whether the post is archived.
    pub archived: bool,
    /// Template of the author's flair.
    pub author_flair_template_id: Option<String>,
    /// Text colour of the author's flair.
    pub author_flair_text_color: Option<String>,
    /// Kind of the author's flair.
    pub author_flair_type: Option<String>,
    /// Fullname of the author's account.
    pub author_fullname: Option<String>,
    /// Whether the author shows a Patreon flair.
    pub author_patreon_flair: Option<bool>,
    /// Whether the post can be gilded.
    pub can_gild: bool,
    /// Whether the reader can moderate the post.
    pub can_mod_post: bool,
    /// Whether the comments are in contest mode.
    pub contest_mode: bool,
    /// The posts this one was cross-posted from.
    pub crosspost_parent_list: Option<Vec<Link>>,
    /// How many times the post was gilded.
    pub gilded: u64,
    /// Whether the score is hidden for now.
    pub hide_score: bool,
    /// Short identifier of the post.
    pub id: String,
    /// Whether the post can be cross-posted.
    pub is_crosspostable: bool,
    /// Whether the post is about its own subreddit.
    pub is_meta: bool,
    /// Whether the post is marked as original content.
    pub is_original_content: bool,
    /// Whether the media is hosted by Reddit.
    pub is_reddit_media_domain: bool,
    /// Whether crawlers may index the post.
    pub is_robot_indexable: bool,
    /// Whether the post is a video.
    pub is_video: bool,
    /// Text colour of the link's flair.
    pub link_flair_text_color: Option<String>,
    /// Kind of the link's flair.
    pub link_flair_type: String,
    /// Whether the post shows media only.
    pub media_only: bool,
    /// Fullname of the post.
    pub name: String,
    /// Whether links to the post carry `nofollow`.
    pub no_follow: bool,
    /// Number of cross-posts of this post.
    pub num_crossposts: u64,
    /// Advertising status of the parent.
    pub parent_whitelist_status: Option<String>,
    /// Whether the post is pinned.
    pub pinned: bool,
    /// What kind of content the post holds.
    pub post_hint: Option<PostHint>,
    /// Advertising level of the parent.
    pub pwls: Option<u64>,
    /// Whether the subreddit is quarantined.
    pub quarantine: bool,
    /// Whether replies are sent to the author's inbox.
    pub send_replies: bool,
    /// Whether the post is marked as a spoiler.
    pub spoiler: bool,
    /// Subreddit name with the `r/` prefix.
    pub subreddit_name_prefixed: String,
    /// Number of subscribers of the subreddit.
    pub subreddit_subscribers: u64,
    /// Access class of the subreddit.
    pub subreddit_type: String,
    /// Sort order suggested for the comments.
    pub suggested_sort: Option<String>,
    /// Height of the thumbnail.
    pub thumbnail_height: Option<u32>,
    /// Width of the thumbnail.
    pub thumbnail_width: Option<u32>,
    /// Whether the reader has visited the post.
    pub visited: bool,
    /// Advertising status.
    pub whitelist_status: Option<String>,
    /// Advertising level.
    pub wls: Option<u32>,
}

/// A stub for children that a page left out (kind `more`).
#[derive(Debug)]
pub struct More {
    /// Identifiers of the things left out of the page.
    pub children: Vec<String>,
}

/// What a post is said to hold.
#[derive(Clone, Copy, Debug, PartialEq, Eq, Structural)]
pub enum PostHint {
    /// An image (`image`).
    Image,
    /// A link (`link`).
    Link,
    /// A video hosted by Reddit (`hosted:video`).
    HostedVideo,
    /// A video hosted elsewhere (`rich:video`).
    RichVideo,
    /// A self post (`self`).
    DataSelf,
    /// A gallery (`gallery`).
    Gallery,
}

} // verus!
