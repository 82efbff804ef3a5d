use reddit::document::{decode_thing, decode_things_document, things_from_json};
use reddit::json::{parse, Json, Number};
use reddit::types::{Comment, Created, ThingData, Votable};
use reddit::{Link, Listing, PostHint, RedditError, Thing};

/// The members of a post, as the API sends them, without the braces.
const LINK_MEMBERS: &str = r#""author":"alice","author_flair_css_class":null,"author_flair_text":null,
"clicked":false,"domain":"i.redd.it","hidden":false,"is_self":false,"likes":true,
"link_flair_css_class":null,"link_flair_text":null,"locked":false,"media":null,
"media_embed":{},"num_comments":113,"over_18":false,
"permalink":"/r/aww/comments/h966lq/a_very_good_boy/","saved":false,"score":1017,
"selftext":"","selftext_html":null,"subreddit":"aww","subreddit_id":"t5_2qh1o",
"thumbnail":"https://b.thumbs.redditmedia.com/v1.jpg","title":"A very good boy",
"url":"https://i.redd.it/v1.jpg","edited":false,"distinguished":null,
"stickied":false,"ups":1017,"downs":0,"created":1592000000.0,
"created_utc":1591971200.0,"archived":false,"author_flair_template_id":null,
"author_flair_text_color":null,"author_flair_type":"text",
"author_fullname":"t2_4x7q1","author_patreon_flair":null,"can_gild":true,
"can_mod_post":false,"contest_mode":false,"gilded":2,"hide_score":false,
"id":"h966lq","is_crosspostable":true,"is_meta":false,"is_original_content":false,
"is_reddit_media_domain":true,"is_robot_indexable":true,"is_video":false,
"link_flair_text_color":null,"link_flair_type":"text","media_only":false,
"name":"t3_h966lq","no_follow":false,"num_crossposts":0,
"parent_whitelist_status":"all_ads","pinned":false,"post_hint":"image","pwls":6,
"quarantine":false,"send_replies":true,"spoiler":false,
"subreddit_name_prefixed":"r/aww","subreddit_subscribers":25300000,
"subreddit_type":"public","suggested_sort":null,"thumbnail_height":140,
"thumbnail_width":140,"visited":false,"whitelist_status":"all_ads","wls":6,
"all_awardings":[],"upvote_ratio":0.97,"view_count":null,
"preview":{"enabled":true,"images":[]}"#;

/// The members of a comment, as the API sends them, without the braces.
const COMMENT_MEMBERS: &str = r#""approved_by":null,"author":"bob","author_flair_css_class":null,
"author_flair_text":null,"banned_by":null,"body":"Such a good boy!",
"body_html":"&lt;div class=\"md\"&gt;&lt;p&gt;Such a good boy!&lt;/p&gt;&lt;/div&gt;",
"special":null,"gilded":1,"likes":false,"link_author":null,"link_id":"t3_h966lq",
"link_title":null,"link_url":null,"num_reports":null,"parent_id":"t3_h966lq",
"saved":true,"score":42,"score_hidden":false,"subreddit":"aww",
"subreddit_id":"t5_2qh1o","distinguished":null,"ups":42,"downs":0,
"created":1592003600,"created_utc":1591974800,"replies":"","depth":0,
"collapsed":false"#;

/// An object with the given members.
fn object(members: &str) -> String {
    format!("{{{}}}", members)
}

/// An envelope of the given kind around the given payload.
fn envelope(kind: &str, data: &str) -> String {
    format!("{{\"kind\":\"{}\",\"data\":{}}}", kind, data)
}

/// A listing envelope with the given children.
fn listing(children: &[String]) -> String {
    let data = format!(
        "{{\"modhash\":\"\",\"dist\":{},\"children\":[{}],\"after\":null,\"before\":null}}",
        children.len(),
        children.join(",")
    );
    envelope("Listing", &data)
}

/// A post envelope, with members added to the sample (a member that is
/// there twice has its last value).
fn post(extra: &str) -> String {
    envelope("t3", &object(&format!("{}{}", LINK_MEMBERS, extra)))
}

/// A comment envelope, with members added to the sample.
fn reply(extra: &str) -> String {
    envelope("t1", &object(&format!("{}{}", COMMENT_MEMBERS, extra)))
}

/// A stub envelope for the given identifiers.
fn stub(ids: &[&str]) -> String {
    let quoted: Vec<String> = ids.iter().map(|id| format!("\"{}\"", id)).collect();
    envelope("more", &format!("{{\"count\":{},\"children\":[{}]}}", ids.len(), quoted.join(",")))
}

/// The sample post's members without one of them, given as it stands in the
/// sample.
fn post_without(member: &str) -> String {
    assert!(LINK_MEMBERS.contains(member));
    envelope("t3", &object(&LINK_MEMBERS.replace(member, "")))
}

fn as_link(thing: &Thing) -> &Link {
    thing.data.as_link().expect("a link")
}

fn as_comment(thing: &Thing) -> &Comment {
    match &thing.data {
        ThingData::Comment(comment) => comment,
        other => panic!("not a comment: {:?}", other),
    }
}

/// The message, line and column of a decode error, and the document it kept.
fn fault(error: RedditError) -> (String, usize, usize, String) {
    match error {
        RedditError::Json { data, error } => (error.message, error.line, error.column, data),
        other => panic!("not a decode error: {:?}", other),
    }
}

fn as_double(number: Number) -> f64 {
    match number {
        Number::PosInt(n) => n as f64,
        Number::NegInt(n) => n as f64,
        Number::Real(bits) => f64::from_bits(bits),
    }
}

#[test]
fn parse_subreddit_1() {
    let text = listing(&[post(""), post(",\"id\":\"h97abc\",\"name\":\"t3_h97abc\"")]);
    let res = decode_thing(&text).unwrap();
    let page = res.data.as_listing().unwrap();
    assert_eq!(page.children.len(), 2);
    assert_eq!(as_link(&page.children[0]).id, "h966lq");
    assert_eq!(as_link(&page.children[1]).id, "h97abc");
}

#[test]
fn parse_subreddit_2() {
    let members = LINK_MEMBERS.replace("\"is_self\":false", "\"is_self\":true");
    let text = listing(&[envelope(
        "t3",
        &object(&format!("{},\"selftext\":\"cromch\\ncromch\",\"post_hint\":\"self\",\"edited\":1592000100.0", members)),
    )]);
    let res = decode_thing(&text).unwrap();
    let page = res.data.as_listing().unwrap();
    let link = as_link(&page.children[0]);
    assert!(link.is_self);
    assert_eq!(link.selftext, "cromch\ncromch");
    assert_eq!(link.post_hint, Some(PostHint::DataSelf));
    match &link.edited {
        Json::Number(n) => assert_eq!(as_double(*n), 1592000100.0),
        other => panic!("unexpected: {:?}", other),
    }
}

#[test]
fn parse_subreddit_3() {
    let parent = object(LINK_MEMBERS);
    let crossposted = post(&format!(
        ",\"id\":\"h9cross\",\"num_crossposts\":1,\"crosspost_parent_list\":[{}],\"crosspost_parent\":\"t3_h966lq\"",
        parent
    ));
    let text = listing(&[crossposted]);
    let res = decode_thing(&text).unwrap();
    let page = res.data.as_listing().unwrap();
    let link = as_link(&page.children[0]);
    assert_eq!(link.id, "h9cross");
    let parents = link.crosspost_parent_list.as_ref().unwrap();
    assert_eq!(parents.len(), 1);
    assert_eq!(parents[0].id, "h966lq");
    assert!(parents[0].crosspost_parent_list.is_none());
}

#[test]
fn parse_subreddit_4() {
    let hints = [
        ("image", PostHint::Image),
        ("link", PostHint::Link),
        ("hosted:video", PostHint::HostedVideo),
        ("rich:video", PostHint::RichVideo),
        ("self", PostHint::DataSelf),
        ("gallery", PostHint::Gallery),
    ];
    let children: Vec<String> =
        hints.iter().map(|(name, _)| post(&format!(",\"post_hint\":\"{}\",\"over_18\":true", name))).collect();
    let res = decode_thing(&listing(&children)).unwrap();
    let page = res.data.as_listing().unwrap();
    assert_eq!(page.children.len(), hints.len());
    for (child, (_, hint)) in page.children.iter().zip(hints.iter()) {
        assert_eq!(as_link(child).post_hint, Some(*hint));
        assert!(as_link(child).over_18);
    }
}

#[test]
fn parse_comments_1() {
    let text = format!("[{},{}]", listing(&[post("")]), listing(&[reply(""), stub(&["fv1abc", "fv1abd"])]));
    let res = decode_things_document(&text).unwrap();
    assert_eq!(res.len(), 2);
    let posts = res[0].data.as_listing().unwrap();
    assert_eq!(as_link(&posts.children[0]).title, "A very good boy");
    let comments = res[1].data.as_listing().unwrap();
    assert_eq!(comments.children.len(), 2);
    assert_eq!(as_comment(&comments.children[0]).body, "Such a good boy!");
    match &comments.children[1].data {
        ThingData::More(more) => assert_eq!(more.children, vec!["fv1abc".to_string(), "fv1abd".to_string()]),
        other => panic!("unexpected: {:?}", other),
    }
}

#[test]
fn parse_comments_2() {
    let replies = listing(&[reply(",\"parent_id\":\"t1_fv1aaa\"")]);
    let text = format!("[{},{}]", listing(&[post("")]), listing(&[reply(&format!(",\"replies\":{}", replies))]));
    let res = decode_things_document(&text).unwrap();
    assert_eq!(res.len(), 2);
    let comments = res[1].data.as_listing().unwrap();
    assert_eq!(comments.children.len(), 1);
    assert_eq!(as_comment(&comments.children[0]).parent_id, "t3_h966lq");
}

#[test]
fn minimal_listing_round_trips() {
    let text = "{\"kind\":\"Listing\",\"data\":{\"modhash\":\"abc\",\"children\":[]}}";
    let thing = decode_thing(text).unwrap();
    assert!(thing.id.is_none());
    assert!(thing.name.is_none());
    let page = thing.data.as_listing().unwrap();
    assert_eq!(page.modhash, "abc");
    assert!(page.before.is_none());
    assert!(page.after.is_none());
    assert!(page.children.is_empty());
}

#[test]
fn minimal_more_round_trips() {
    let thing = decode_thing("{\"kind\":\"more\",\"data\":{\"children\":[\"a1\",\"b2\"]}}").unwrap();
    match thing.data {
        ThingData::More(more) => assert_eq!(more.children, vec!["a1".to_string(), "b2".to_string()]),
        other => panic!("unexpected: {:?}", other),
    }
}

#[test]
fn minimal_comment_round_trips() {
    let members = COMMENT_MEMBERS.replace(",\"replies\":\"\",\"depth\":0,\n\"collapsed\":false", "");
    assert!(!members.contains("replies"));
    let thing = decode_thing(&envelope("t1", &object(&members))).unwrap();
    let comment = as_comment(&thing);
    assert_eq!(comment.author, "bob");
    assert_eq!(comment.body, "Such a good boy!");
    assert_eq!(
        comment.body_html,
        "&lt;div class=\"md\"&gt;&lt;p&gt;Such a good boy!&lt;/p&gt;&lt;/div&gt;"
    );
    assert_eq!(comment.link_id, "t3_h966lq");
    assert_eq!(comment.parent_id, "t3_h966lq");
    assert_eq!(comment.subreddit, "aww");
    assert_eq!(comment.subreddit_id, "t5_2qh1o");
    assert_eq!(comment.gilded, 1);
    assert_eq!(comment.score, 42);
    assert!(comment.saved);
    assert!(!comment.score_hidden);
    assert_eq!(comment.likes, Some(false));
    assert!(comment.special.is_none());
    assert!(comment.approved_by.is_none());
    assert!(comment.num_reports.is_none());
    assert_eq!(comment.votable.ups, 42);
    assert_eq!(comment.votable.downs, 0);
    assert_eq!(comment.created.created, Number::PosInt(1592003600));
    assert_eq!(comment.created.created_utc, Number::PosInt(1591974800));
}

#[test]
fn minimal_link_round_trips() {
    let thing = decode_thing(&post("")).unwrap();
    let link = as_link(&thing);
    assert_eq!(link.author, "alice");
    assert_eq!(link.author_fullname.as_deref(), Some("t2_4x7q1"));
    assert_eq!(link.domain, "i.redd.it");
    assert_eq!(link.id, "h966lq");
    assert_eq!(link.name, "t3_h966lq");
    assert_eq!(link.title, "A very good boy");
    assert_eq!(link.url, "https://i.redd.it/v1.jpg");
    assert_eq!(link.permalink, "/r/aww/comments/h966lq/a_very_good_boy/");
    assert_eq!(link.selftext, "");
    assert!(link.selftext_html.is_none());
    assert_eq!(link.subreddit.as_deref(), Some("aww"));
    assert_eq!(link.subreddit_id, "t5_2qh1o");
    assert_eq!(link.subreddit_name_prefixed, "r/aww");
    assert_eq!(link.subreddit_subscribers, 25_300_000);
    assert_eq!(link.subreddit_type, "public");
    assert_eq!(link.thumbnail.as_deref(), Some("https://b.thumbs.redditmedia.com/v1.jpg"));
    assert_eq!(link.thumbnail_height, Some(140));
    assert_eq!(link.thumbnail_width, Some(140));
    assert_eq!(link.post_hint, Some(PostHint::Image));
    assert_eq!(link.num_comments, 113);
    assert_eq!(link.num_crossposts, 0);
    assert_eq!(link.score, 1017);
    assert_eq!(link.gilded, 2);
    assert_eq!(link.likes, Some(true));
    assert_eq!(link.link_flair_type, "text");
    assert_eq!(link.pwls, Some(6));
    assert_eq!(link.wls, Some(6));
    assert_eq!(link.whitelist_status.as_deref(), Some("all_ads"));
    assert!(link.is_reddit_media_domain && link.is_robot_indexable && link.is_crosspostable);
    assert!(link.can_gild && link.send_replies);
    assert!(!link.locked && !link.archived && !link.pinned && !link.spoiler && !link.over_18);
    assert!(!link.is_self && !link.is_video && !link.stickied && !link.quarantine);
    assert!(matches!(link.media, Json::Null));
    assert!(matches!(&link.media_embed, Json::Object(members) if members.is_empty()));
    assert!(matches!(link.edited, Json::Bool(false)));
    assert!(link.crosspost_parent_list.is_none());
    assert_eq!(link.votable.ups, 1017);
    assert_eq!(link.votable.downs, 0);
    assert_eq!(as_double(link.created.created), 1592000000.0);
    assert_eq!(as_double(link.created.created_utc), 1591971200.0);
}

#[test]
fn envelope_identity_is_read() {
    let text = format!("{{\"id\":\"h966lq\",\"name\":\"t3_h966lq\",\"kind\":\"t3\",\"data\":{}}}", object(LINK_MEMBERS));
    let thing = decode_thing(&text).unwrap();
    assert_eq!(thing.id.as_deref(), Some("h966lq"));
    assert_eq!(thing.name.as_deref(), Some("t3_h966lq"));
}

#[test]
fn unknown_kind_is_a_decode_error() {
    let text = "{\"kind\":\"t2\",\"data\":{\"name\":\"alice\"}}";
    let (message, line, column, data) = fault(decode_thing(text).unwrap_err());
    assert_eq!(message, "unknown variant `t2`");
    assert_eq!((line, column), (0, 0));
    assert_eq!(data, text);
}

#[test]
fn unknown_kind_in_a_listing_fails_the_whole_document() {
    let text = listing(&[post(""), envelope("t5", "{}")]);
    let (message, _, _, data) = fault(decode_thing(&text).unwrap_err());
    assert_eq!(message, "unknown variant `t5`");
    assert_eq!(data, text);
}

#[test]
fn kind_must_be_there_and_be_a_string() {
    let (message, _, _, _) = fault(decode_thing("{\"data\":{}}").unwrap_err());
    assert_eq!(message, "missing field `kind`");
    let (message, _, _, _) = fault(decode_thing("{\"kind\":3,\"data\":{}}").unwrap_err());
    assert_eq!(message, "invalid type for field `kind`");
    let (message, _, _, _) = fault(decode_thing("[]").unwrap_err());
    assert_eq!(message, "missing field `kind`");
}

#[test]
fn payload_must_be_there() {
    let (message, _, _, _) = fault(decode_thing("{\"kind\":\"t3\"}").unwrap_err());
    assert_eq!(message, "missing field `data`");
}

#[test]
fn empty_children_decode_to_an_empty_listing() {
    let thing = decode_thing(&listing(&[])).unwrap();
    assert_eq!(thing.data.as_listing().unwrap().children.len(), 0);
}

#[test]
fn listing_keeps_cursors_and_order() {
    let children = [stub(&["c"]), stub(&["a"]), stub(&["b"])];
    let data = format!(
        "{{\"modhash\":\"m0\",\"children\":[{}],\"after\":\"t3_zzz\",\"before\":\"t3_aaa\"}}",
        children.join(",")
    );
    let thing = decode_thing(&envelope("Listing", &data)).unwrap();
    let page = thing.data.as_listing().unwrap();
    assert_eq!(page.after.as_deref(), Some("t3_zzz"));
    assert_eq!(page.before.as_deref(), Some("t3_aaa"));
    assert_eq!(page.modhash, "m0");
    let order: Vec<String> = page
        .children
        .iter()
        .map(|child| match &child.data {
            ThingData::More(more) => more.children[0].clone(),
            other => panic!("unexpected: {:?}", other),
        })
        .collect();
    assert_eq!(order, vec!["c".to_string(), "a".to_string(), "b".to_string()]);
}

#[test]
fn listing_needs_children_in_an_array() {
    let (message, _, _, _) =
        fault(decode_thing("{\"kind\":\"Listing\",\"data\":{\"modhash\":\"\"}}").unwrap_err());
    assert_eq!(message, "missing field `children`");
    let (message, _, _, _) = fault(
        decode_thing("{\"kind\":\"Listing\",\"data\":{\"modhash\":\"\",\"children\":{}}}").unwrap_err(),
    );
    assert_eq!(message, "invalid type for field `children`");
    let (message, _, _, _) =
        fault(decode_thing("{\"kind\":\"Listing\",\"data\":{\"children\":[]}}").unwrap_err());
    assert_eq!(message, "missing field `modhash`");
}

#[test]
fn listings_nest() {
    let text = listing(&[listing(&[listing(&[stub(&["deep"])])])]);
    let thing = decode_thing(&text).unwrap();
    let first = thing.data.as_listing().unwrap();
    let second = first.children[0].data.as_listing().unwrap();
    let third = second.children[0].data.as_listing().unwrap();
    assert!(matches!(third.children[0].data, ThingData::More(_)));
}

#[test]
fn comment_tree_of_two_listings() {
    let text = format!("[{},{}]", listing(&[post("")]), listing(&[reply("")]));
    let things = decode_things_document(&text).unwrap();
    assert_eq!(things.len(), 2);
    assert!(things[0].data.as_listing().is_some());
    assert!(things[1].data.as_listing().is_some());
}

#[test]
fn comment_tree_must_be_an_array() {
    let text = listing(&[]);
    let (message, line, column, data) = fault(decode_things_document(&text).unwrap_err());
    assert_eq!(message, "invalid type: expected an array");
    assert_eq!((line, column), (0, 0));
    assert_eq!(data, text);
    assert!(decode_things_document("[]").unwrap().is_empty());
}

#[test]
fn comment_tree_stops_at_the_first_fault() {
    let text = format!("[{},{},{}]", listing(&[]), envelope("t9", "{}"), envelope("t8", "{}"));
    let (message, _, _, _) = fault(decode_things_document(&text).unwrap_err());
    assert_eq!(message, "unknown variant `t9`");
}

#[test]
fn things_from_json_reads_an_array_value() {
    let json = parse(&format!("[{}]", stub(&["x"]))).unwrap();
    assert_eq!(things_from_json(&json).unwrap().len(), 1);
    let fault = things_from_json(&Json::Null).unwrap_err();
    assert_eq!(fault.message, "invalid type: expected an array");
}

#[test]
fn syntax_errors_carry_their_position() {
    let text = "{\"kind\":\"t3\",\n \"data\": oops}";
    let (message, line, column, data) = fault(decode_thing(text).unwrap_err());
    assert_eq!(message, "expected value at line 2 column 10");
    assert_eq!((line, column), (2, 10));
    assert_eq!(data, text);
    let (message, line, column, _) = fault(decode_things_document("[").unwrap_err());
    assert_eq!(message, "EOF while parsing a list at line 1 column 1");
    assert_eq!((line, column), (1, 1));
}

#[test]
fn missing_member_is_named() {
    let (message, line, column, _) = fault(decode_thing(&post_without("\"author\":\"alice\",")).unwrap_err());
    assert_eq!(message, "missing field `author`");
    assert_eq!((line, column), (0, 0));
    let (message, _, _, _) = fault(decode_thing(&post_without("\"media\":null,")).unwrap_err());
    assert_eq!(message, "missing field `media`");
    let (message, _, _, _) = fault(decode_thing(&post_without("\"ups\":1017,")).unwrap_err());
    assert_eq!(message, "missing field `ups`");
    let (message, _, _, _) = fault(decode_thing(&post_without("\"created_utc\":1591971200.0,")).unwrap_err());
    assert_eq!(message, "missing field `created_utc`");
}

#[test]
fn mistyped_member_is_named() {
    let (message, _, _, _) = fault(decode_thing(&post(",\"title\":17")).unwrap_err());
    assert_eq!(message, "invalid type for field `title`");
    let (message, _, _, _) = fault(decode_thing(&post(",\"locked\":\"no\"")).unwrap_err());
    assert_eq!(message, "invalid type for field `locked`");
    let (message, _, _, _) = fault(decode_thing(&post(",\"author_flair_text\":false")).unwrap_err());
    assert_eq!(message, "invalid type for field `author_flair_text`");
    let (message, _, _, _) = fault(decode_thing(&post(",\"crosspost_parent_list\":\"t3_x\"")).unwrap_err());
    assert_eq!(message, "invalid type for field `crosspost_parent_list`");
    let (message, _, _, _) = fault(decode_thing(&stub(&[]).replace("[]", "[1]")).unwrap_err());
    assert_eq!(message, "invalid type for field `children`");
}

#[test]
fn first_fault_is_reported() {
    let text = post(",\"wls\":\"six\",\"author\":null");
    let (message, _, _, _) = fault(decode_thing(&text).unwrap_err());
    assert_eq!(message, "invalid type for field `author`");
}

#[test]
fn numbers_are_held_to_their_ranges() {
    let (message, _, _, _) = fault(decode_thing(&post(",\"downs\":-1")).unwrap_err());
    assert_eq!(message, "invalid type for field `downs`");
    let (message, _, _, _) = fault(decode_thing(&post(",\"num_comments\":3.0")).unwrap_err());
    assert_eq!(message, "invalid type for field `num_comments`");
    let (message, _, _, _) = fault(decode_thing(&post(",\"thumbnail_height\":4294967296")).unwrap_err());
    assert_eq!(message, "invalid type for field `thumbnail_height`");
    let (message, _, _, _) = fault(decode_thing(&post(",\"score\":9223372036854775808")).unwrap_err());
    assert_eq!(message, "invalid type for field `score`");
    let thing = decode_thing(&post(
        ",\"thumbnail_height\":4294967295,\"score\":-9223372036854775808,\"ups\":9223372036854775807,\
         \"downs\":18446744073709551615",
    ))
    .unwrap();
    let link = as_link(&thing);
    assert_eq!(link.thumbnail_height, Some(u32::MAX));
    assert_eq!(link.score, i64::MIN);
    assert_eq!(link.votable.ups, i64::MAX);
    assert_eq!(link.votable.downs, u64::MAX);
}

#[test]
fn unknown_post_hint_fails_the_link() {
    let (message, _, _, _) = fault(decode_thing(&post(",\"post_hint\":\"poll\"")).unwrap_err());
    assert_eq!(message, "unknown variant `poll`");
    let (message, _, _, _) = fault(decode_thing(&post(",\"post_hint\":7")).unwrap_err());
    assert_eq!(message, "invalid type for field `post_hint`");
    let thing = decode_thing(&post(",\"post_hint\":null")).unwrap();
    assert_eq!(as_link(&thing).post_hint, None);
    let thing = decode_thing(&post_without("\"post_hint\":\"image\",")).unwrap();
    assert_eq!(as_link(&thing).post_hint, None);
}

#[test]
fn unevenly_typed_members_pass_through() {
    let thing = decode_thing(&post(",\"edited\":1592000100.5,\"media\":{\"type\":\"youtube.com\"}")).unwrap();
    let link = as_link(&thing);
    assert!(matches!(link.edited, Json::Number(n) if as_double(n) == 1592000100.5));
    match &link.media {
        Json::Object(members) => {
            assert_eq!(members.len(), 1);
            assert_eq!(members[0].0, "type");
            assert!(matches!(&members[0].1, Json::Text(s) if s == "youtube.com"));
        }
        other => panic!("unexpected: {:?}", other),
    }
    let thing = decode_thing(&post(",\"edited\":true")).unwrap();
    assert!(matches!(as_link(&thing).edited, Json::Bool(true)));

    let thing = decode_thing(&reply(",\"special\":false")).unwrap();
    assert!(matches!(as_comment(&thing).special, Some(Json::Bool(false))));
    let thing = decode_thing(&reply(",\"special\":1592000100")).unwrap();
    assert!(matches!(as_comment(&thing).special, Some(Json::Number(Number::PosInt(1592000100)))));
    let thing = decode_thing(&reply("")).unwrap();
    assert!(as_comment(&thing).special.is_none());
}

#[test]
fn owner_keeps_the_vote_of_the_reader() {
    let thing = decode_thing(&post("")).unwrap();
    let link = as_link(&thing);
    assert_eq!(link.likes, Some(true));
    assert_eq!(link.votable.likes, None);
    let thing = decode_thing(&reply("")).unwrap();
    let comment = as_comment(&thing);
    assert_eq!(comment.likes, Some(false));
    assert_eq!(comment.votable.likes, None);
}

#[test]
fn votable_alone_reads_its_own_vote() {
    let json = parse("{\"ups\":-3,\"downs\":4,\"likes\":true}").unwrap();
    let votes = Votable::from_json(&json).unwrap();
    assert_eq!((votes.ups, votes.downs, votes.likes), (-3, 4, Some(true)));
    let flat = Votable::from_flattened(&json).unwrap();
    assert_eq!((flat.ups, flat.downs, flat.likes), (-3, 4, None));
    let fault = Votable::from_json(&parse("{\"ups\":1,\"downs\":2,\"likes\":0}").unwrap()).unwrap_err();
    assert_eq!(fault.message, "invalid type for field `likes`");
}

#[test]
fn created_keeps_the_number_as_it_came() {
    let json = parse("{\"created\":1331042771.0,\"created_utc\":1331042771}").unwrap();
    let times = Created::from_json(&json).unwrap();
    assert_eq!(times.created, Number::Real(1331042771.0f64.to_bits()));
    assert_eq!(times.created_utc, Number::PosInt(1331042771));
    let fault = Created::from_json(&parse("{\"created\":\"now\",\"created_utc\":1}").unwrap()).unwrap_err();
    assert_eq!(fault.message, "invalid type for field `created`");
}

#[test]
fn crossposts_are_decoded_in_order_and_checked() {
    let first = object(&format!("{},\"id\":\"h9aaaa\"", LINK_MEMBERS));
    let second = object(&format!("{},\"id\":\"h9bbbb\"", LINK_MEMBERS));
    let thing = decode_thing(&post(&format!(",\"crosspost_parent_list\":[{},{}]", first, second))).unwrap();
    let parents = as_link(&thing).crosspost_parent_list.as_ref().unwrap();
    assert_eq!(parents.len(), 2);
    assert_eq!(parents[0].id, "h9aaaa");
    assert_eq!(parents[1].id, "h9bbbb");

    let broken = object(&LINK_MEMBERS.replace("\"title\":\"A very good boy\",", ""));
    let (message, _, _, _) =
        fault(decode_thing(&post(&format!(",\"crosspost_parent_list\":[{},{}]", first, broken))).unwrap_err());
    assert_eq!(message, "missing field `title`");

    let thing = decode_thing(&post(",\"crosspost_parent_list\":null")).unwrap();
    assert!(as_link(&thing).crosspost_parent_list.is_none());
    let thing = decode_thing(&post(",\"crosspost_parent_list\":[]")).unwrap();
    assert_eq!(as_link(&thing).crosspost_parent_list.as_ref().unwrap().len(), 0);
}

#[test]
fn accessors_tell_the_variants_apart() {
    let mut page = decode_thing(&listing(&[post("")])).unwrap();
    assert!(page.data.as_link().is_none());
    page.data.as_listing_mut().unwrap().modhash = "changed".to_string();
    assert_eq!(page.data.as_listing().unwrap().modhash, "changed");
    let inner: Box<Listing> = page.data.into_listing().unwrap();
    assert_eq!(inner.children.len(), 1);

    let mut link = decode_thing(&post("")).unwrap();
    assert!(link.data.as_listing().is_none());
    assert!(link.data.as_listing_mut().is_none());
    assert_eq!(link.data.as_link().unwrap().id, "h966lq");
    let inner: Box<Link> = link.data.into_link().unwrap();
    assert_eq!(inner.name, "t3_h966lq");

    assert!(decode_thing(&stub(&[])).unwrap().data.into_link().is_none());
    assert!(decode_thing(&stub(&[])).unwrap().data.into_listing().is_none());
}

#[test]
fn deep_documents_are_decoded() {
    let mut text = stub(&["leaf"]);
    for _ in 0..20 {
        text = listing(&[text]);
    }
    let mut thing = decode_thing(&text).unwrap();
    for _ in 0..20 {
        let mut page = thing.data.into_listing().unwrap();
        assert_eq!(page.children.len(), 1);
        thing = page.children.pop().unwrap();
    }
    assert!(matches!(thing.data, ThingData::More(_)));
}
