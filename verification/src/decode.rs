//! Decoding JSON values into things.
//!
//! For each type there is a pair of specifications over [`JsonValue`]: the
//! first fault that stops the value from being decoded, if any, and what it
//! means for a decoded value to hold what the JSON value says. The decoder of
//! the type returns a value that holds it where there is no fault, and the
//! fault where there is one. Members are checked in a fixed order, so that
//! the fault reported for a value is always the same.
//!
//! Links, the largest of the types, have a file of their own.

use crate::fields::{
    bool_at, i64_at, json_of, missing, missing_field, mistyped, mistyped_field, number_at, opt_any_at,
    opt_bool_at, opt_text_at, opt_u64_at, read_bool, read_i64, read_number, read_opt_any, read_opt_bool,
    read_opt_text, read_opt_u64, read_text, read_texts, read_u64, text_at, text_of, texts_at, texts_of,
    u64_at, unknown_variant, unknown_variant_of, yields, Checked,
};
use crate::json::{items_of, lemma_field_smaller, Diagnostic, DiagnosticView, Json, JsonValue};
use crate::link::{link_fault, link_holds};
use crate::text::str_eq;
use crate::types::{Comment, Created, Link, Listing, More, Thing, ThingData, Votable};
use vstd::prelude::*;

verus! {

/// The first fault in the vote counts of `value`.
pub open spec fn votable_fault(value: JsonValue) -> Option<DiagnosticView> {
    Checked::start()
        .also(i64_at(value, "ups"@))
        .also(u64_at(value, "downs"@))
        .also(opt_bool_at(value, "likes"@))
        .fault
}

/// `votable` holds the vote counts of `value`.
pub open spec fn votable_holds(votable: Votable, value: JsonValue) -> bool {
    &&& yields(i64_at(value, "ups"@), votable.ups)
    &&& yields(u64_at(value, "downs"@), votable.downs)
    &&& yields(opt_bool_at(value, "likes"@), votable.likes)
}

/// The first fault in the vote counts of a comment or link. The owner reads
/// `likes` itself, so only the two counts are looked at.
pub open spec fn flat_votable_fault(value: JsonValue) -> Option<DiagnosticView> {
    Checked::start()
        .also(i64_at(value, "ups"@))
        .also(u64_at(value, "downs"@))
        .fault
}

/// `votable` holds the vote counts of a comment or link: the two counts, and
/// no vote, since `likes` belongs to the owner.
pub open spec fn flat_votable_holds(votable: Votable, value: JsonValue) -> bool {
    &&& yields(i64_at(value, "ups"@), votable.ups)
    &&& yields(u64_at(value, "downs"@), votable.downs)
    &&& votable.likes is None
}

/// The first fault in the creation times of `value`.
pub open spec fn created_fault(value: JsonValue) -> Option<DiagnosticView> {
    Checked::start()
        .also(number_at(value, "created"@))
        .also(number_at(value, "created_utc"@))
        .fault
}

/// `created` holds the creation times of `value`.
pub open spec fn created_holds(created: Created, value: JsonValue) -> bool {
    &&& yields(number_at(value, "created"@), created.created)
    &&& yields(number_at(value, "created_utc"@), created.created_utc)
}

/// The first fault in `value` as a stub for omitted children.
pub open spec fn more_fault(value: JsonValue) -> Option<DiagnosticView> {
    Checked::start()
        .also(texts_at(value, "children"@))
        .fault
}

/// `more` holds what `value` says.
pub open spec fn more_holds(more: More, value: JsonValue) -> bool {
    &&& yields(texts_at(value, "children"@), texts_of(more.children@))
}

/// The first fault in `value` as a comment.
pub open spec fn comment_fault(value: JsonValue) -> Option<DiagnosticView> {
    Checked::start()
        .also(opt_text_at(value, "approved_by"@))
        .also(text_at(value, "author"@))
        .also(opt_text_at(value, "author_flair_css_class"@))
        .also(opt_text_at(value, "author_flair_text"@))
        .also(opt_text_at(value, "banned_by"@))
        .also(text_at(value, "body"@))
        .also(text_at(value, "body_html"@))
        .also(u64_at(value, "gilded"@))
        .also(opt_bool_at(value, "likes"@))
        .also(opt_text_at(value, "link_author"@))
        .also(text_at(value, "link_id"@))
        .also(opt_text_at(value, "link_title"@))
        .also(opt_text_at(value, "link_url"@))
        .also(opt_u64_at(value, "num_reports"@))
        .also(text_at(value, "parent_id"@))
        .also(bool_at(value, "saved"@))
        .also(i64_at(value, "score"@))
        .also(bool_at(value, "score_hidden"@))
        .also(text_at(value, "subreddit"@))
        .also(text_at(value, "subreddit_id"@))
        .also(opt_text_at(value, "distinguished"@))
        .also_fault(flat_votable_fault(value))
        .also_fault(created_fault(value))
        .fault
}

/// `comment` holds what `value` says.
pub open spec fn comment_holds(comment: Comment, value: JsonValue) -> bool {
    &&& yields(opt_text_at(value, "approved_by"@), text_of(comment.approved_by))
    &&& yields(text_at(value, "author"@), comment.author@)
    &&& yields(opt_text_at(value, "author_flair_css_class"@), text_of(comment.author_flair_css_class))
    &&& yields(opt_text_at(value, "author_flair_text"@), text_of(comment.author_flair_text))
    &&& yields(opt_text_at(value, "banned_by"@), text_of(comment.banned_by))
    &&& yields(text_at(value, "body"@), comment.body@)
    &&& yields(text_at(value, "body_html"@), comment.body_html@)
    &&& json_of(comment.special) == opt_any_at(value, "special"@)
    &&& yields(u64_at(value, "gilded"@), comment.gilded)
    &&& yields(opt_bool_at(value, "likes"@), comment.likes)
    &&& yields(opt_text_at(value, "link_author"@), text_of(comment.link_author))
    &&& yields(text_at(value, "link_id"@), comment.link_id@)
    &&& yields(opt_text_at(value, "link_title"@), text_of(comment.link_title))
    &&& yields(opt_text_at(value, "link_url"@), text_of(comment.link_url))
    &&& yields(opt_u64_at(value, "num_reports"@), comment.num_reports)
    &&& yields(text_at(value, "parent_id"@), comment.parent_id@)
    &&& yields(bool_at(value, "saved"@), comment.saved)
    &&& yields(i64_at(value, "score"@), comment.score)
    &&& yields(bool_at(value, "score_hidden"@), comment.score_hidden)
    &&& yields(text_at(value, "subreddit"@), comment.subreddit@)
    &&& yields(text_at(value, "subreddit_id"@), comment.subreddit_id@)
    &&& yields(opt_text_at(value, "distinguished"@), text_of(comment.distinguished))
    &&& flat_votable_holds(comment.votable, value)
    &&& created_holds(comment.created, value)
}

/// The first fault in the members of `value` as a listing, its children left
/// aside.
pub open spec fn listing_own_fault(value: JsonValue) -> Option<DiagnosticView> {
    Checked::start()
        .also(opt_text_at(value, "before"@))
        .also(opt_text_at(value, "after"@))
        .also(text_at(value, "modhash"@))
        .fault
}

/// `listing` holds what the members of `value` say, its children left aside.
pub open spec fn listing_own_holds(listing: Listing, value: JsonValue) -> bool {
    &&& yields(opt_text_at(value, "before"@), text_of(listing.before))
    &&& yields(opt_text_at(value, "after"@), text_of(listing.after))
    &&& yields(text_at(value, "modhash"@), listing.modhash@)
}

/// The discriminator is one of the four that are decoded.
pub open spec fn known_kind(kind: Seq<char>) -> bool {
    kind == "Listing"@ || kind == "more"@ || kind == "t1"@ || kind == "t3"@
}

/// The discriminator of a payload.
pub open spec fn kind_of(data: ThingData) -> Seq<char> {
    match data {
        ThingData::Listing(_) => "Listing"@,
        ThingData::More(_) => "more"@,
        ThingData::Comment(_) => "t1"@,
        ThingData::Link(_) => "t3"@,
    }
}

/// The first fault in `value` as an envelope: in `id`, `name` or `kind`, a
/// kind that is not decoded, a missing `data`, or else the first fault in
/// `data` as the payload of that kind.
pub open spec fn thing_fault(value: JsonValue) -> Option<DiagnosticView>
    decreases value, 0nat,
{
    let envelope = Checked::start()
        .also(opt_text_at(value, "id"@))
        .also(opt_text_at(value, "name"@))
        .also(text_at(value, "kind"@))
        .fault;
    if envelope is Some {
        envelope
    } else {
        let kind = text_at(value, "kind"@)->Ok_0;
        if !known_kind(kind) {
            Some(unknown_variant(kind))
        } else {
            match value.field("data"@) {
                None => Some(missing("data"@)),
                Some(data) => {
                    proof {
                        lemma_field_smaller(value, "data"@);
                    }
                    if kind == "Listing"@ {
                        listing_fault(data)
                    } else if kind == "more"@ {
                        more_fault(data)
                    } else if kind == "t1"@ {
                        comment_fault(data)
                    } else {
                        link_fault(data)
                    }
                },
            }
        }
    }
}

/// The first fault in the items of `items` as envelopes, from position
/// `from` on.
pub open spec fn things_fault(items: Seq<JsonValue>, from: nat) -> Option<DiagnosticView>
    decreases items, items.len() - from,
{
    if from >= items.len() {
        None
    } else {
        Checked { fault: thing_fault(items[from as int]) }.also_fault(things_fault(items, from + 1)).fault
    }
}

/// The first fault in `value` as a listing: in its own members, or else in
/// its children, which are envelopes in an array.
pub open spec fn listing_fault(value: JsonValue) -> Option<DiagnosticView>
    decreases value, 0nat,
{
    Checked { fault: listing_own_fault(value) }.also_fault(
        match value.field("children"@) {
            None => Some(missing("children"@)),
            Some(JsonValue::Array(items)) => {
                proof {
                    lemma_field_smaller(value, "children"@);
                }
                things_fault(items, 0)
            },
            Some(_) => Some(mistyped("children"@)),
        },
    ).fault
}

/// `thing` holds what `value` says.
pub open spec fn thing_holds(thing: Thing, value: JsonValue) -> bool
    decreases thing,
{
    &&& yields(opt_text_at(value, "id"@), text_of(thing.id))
    &&& yields(opt_text_at(value, "name"@), text_of(thing.name))
    &&& yields(text_at(value, "kind"@), kind_of(thing.data))
    &&& value.field("data"@) is Some
    &&& match thing.data {
        ThingData::Listing(listing) => listing_holds(*listing, value.field("data"@)->Some_0),
        ThingData::More(more) => more_holds(more, value.field("data"@)->Some_0),
        ThingData::Comment(comment) => comment_holds(*comment, value.field("data"@)->Some_0),
        ThingData::Link(link) => link_holds(*link, value.field("data"@)->Some_0),
    }
}

/// `things` holds what the items of `items` say, one for one and in order.
pub open spec fn things_hold(things: Seq<Thing>, items: Seq<JsonValue>) -> bool
    decreases things,
{
    &&& things.len() == items.len()
    &&& forall|i: int| #![trigger things[i]] 0 <= i < things.len() ==> thing_holds(things[i], items[i])
}

/// `listing` holds what `value` says.
pub open spec fn listing_holds(listing: Listing, value: JsonValue) -> bool
    decreases listing,
{
    &&& listing_own_holds(listing, value)
    &&& value.field("children"@) is Some
    &&& value.field("children"@)->Some_0 is Array
    &&& things_hold(listing.children@, value.field("children"@)->Some_0->Array_0)
}

/// The first fault in `data` as the payload of the kind `kind`.
pub open spec fn payload_fault(kind: Seq<char>, data: JsonValue) -> Option<DiagnosticView> {
    if kind == "Listing"@ {
        listing_fault(data)
    } else if kind == "more"@ {
        more_fault(data)
    } else if kind == "t1"@ {
        comment_fault(data)
    } else if kind == "t3"@ {
        link_fault(data)
    } else {
        Some(unknown_variant(kind))
    }
}

/// The four discriminators differ from one another.
pub proof fn lemma_kinds_differ()
    ensures
        "Listing"@ != "more"@,
        "Listing"@ != "t1"@,
        "Listing"@ != "t3"@,
        "more"@ != "t1"@,
        "more"@ != "t3"@,
        "t1"@ != "t3"@,
{
    reveal_strlit("Listing");
    reveal_strlit("more");
    reveal_strlit("t1");
    reveal_strlit("t3");
    assert("Listing"@.len() == 7);
    assert("more"@.len() == 4);
    assert("t1"@.len() == 2);
    assert("t1"@[1] == '1');
    assert("t3"@[1] == '3');
}

/// An envelope of one of the four kinds is decoded exactly when its identity
/// and its payload have no fault: with a sound `id` and `name`, the fault of
/// the envelope is the fault of its payload as that kind.
pub proof fn lemma_known_kind_decodes(value: JsonValue)
    requires
        opt_text_at(value, "id"@) is Ok,
        opt_text_at(value, "name"@) is Ok,
        text_at(value, "kind"@) is Ok,
        known_kind(text_at(value, "kind"@)->Ok_0),
        value.field("data"@) is Some,
    ensures
        thing_fault(value) == payload_fault(text_at(value, "kind"@)->Ok_0, value.field("data"@)->Some_0),
{
    lemma_kinds_differ();
}

/// A thing that holds what an envelope says has the variant that the
/// envelope's kind names, and its payload holds what `data` says.
pub proof fn lemma_kind_selects_variant(thing: Thing, value: JsonValue)
    requires
        thing_holds(thing, value),
    ensures
        text_at(value, "kind"@) is Ok,
        match thing.data {
            ThingData::Listing(listing) => text_at(value, "kind"@)->Ok_0 == "Listing"@ && listing_holds(
                *listing,
                value.field("data"@)->Some_0,
            ),
            ThingData::More(more) => text_at(value, "kind"@)->Ok_0 == "more"@ && more_holds(
                more,
                value.field("data"@)->Some_0,
            ),
            ThingData::Comment(comment) => text_at(value, "kind"@)->Ok_0 == "t1"@ && comment_holds(
                *comment,
                value.field("data"@)->Some_0,
            ),
            ThingData::Link(link) => text_at(value, "kind"@)->Ok_0 == "t3"@ && link_holds(
                *link,
                value.field("data"@)->Some_0,
            ),
        },
{
}

/// An envelope whose kind is none of the four that are decoded has a fault,
/// and no thing holds what it says.
pub proof fn lemma_unknown_kind_is_refused(value: JsonValue)
    requires
        text_at(value, "kind"@) is Ok,
        !known_kind(text_at(value, "kind"@)->Ok_0),
    ensures
        thing_fault(value) is Some,
        forall|thing: Thing| !thing_holds(thing, value),
{
    assert forall|thing: Thing| !thing_holds(thing, value) by {
        if thing_holds(thing, value) {
            assert(known_kind(kind_of(thing.data)));
        }
    }
}

/// A listing with no children is decoded, and to a listing without children.
pub proof fn lemma_empty_listing(value: JsonValue)
    requires
        listing_own_fault(value) is None,
        value.field("children"@) == Some(JsonValue::Array(Seq::<JsonValue>::empty())),
    ensures
        listing_fault(value) is None,
        forall|listing: Listing| listing_holds(listing, value) ==> listing.children@.len() == 0,
{
    assert forall|listing: Listing| listing_holds(listing, value) implies listing.children@.len() == 0 by {
        assert(things_hold(listing.children@, Seq::<JsonValue>::empty()));
    }
}

/// Things that hold what the items of an array say are as many as the items.
pub proof fn lemma_one_thing_for_each_item(things: Seq<Thing>, items: Seq<JsonValue>)
    requires
        things_hold(things, items),
    ensures
        things.len() == items.len(),
{
}

impl Votable {
    /// Decodes vote counts from an object that has them as members.
    pub fn from_json(json: &Json) -> (outcome: Result<Votable, Diagnostic>)
        ensures
            match outcome {
                Ok(votable) => votable_fault(json@) is None && votable_holds(votable, json@),
                Err(fault) => votable_fault(json@) == Some(fault@),
            },
    {
        let ups = read_i64(json, "ups")?;
        let downs = read_u64(json, "downs")?;
        let likes = read_opt_bool(json, "likes")?;
        Ok(
        Votable {
            ups,
            downs,
            likes,
        }
        )
    }

    /// Decodes the vote counts of a comment or link from the owner's object.
    pub fn from_flattened(json: &Json) -> (outcome: Result<Votable, Diagnostic>)
        ensures
            match outcome {
                Ok(votable) => flat_votable_fault(json@) is None && flat_votable_holds(votable, json@),
                Err(fault) => flat_votable_fault(json@) == Some(fault@),
            },
    {
        let ups = read_i64(json, "ups")?;
        let downs = read_u64(json, "downs")?;
        Ok(Votable { ups, downs, likes: None })
    }
}

impl Created {
    /// Decodes creation times from an object that has them as members.
    pub fn from_json(json: &Json) -> (outcome: Result<Created, Diagnostic>)
        ensures
            match outcome {
                Ok(created) => created_fault(json@) is None && created_holds(created, json@),
                Err(fault) => created_fault(json@) == Some(fault@),
            },
    {
        let created = read_number(json, "created")?;
        let created_utc = read_number(json, "created_utc")?;
        Ok(
        Created {
            created,
            created_utc,
        }
        )
    }
}

impl More {
    /// Decodes a stub for omitted children.
    pub fn from_json(json: &Json) -> (outcome: Result<More, Diagnostic>)
        ensures
            match outcome {
                Ok(more) => more_fault(json@) is None && more_holds(more, json@),
                Err(fault) => more_fault(json@) == Some(fault@),
            },
    {
        let children = read_texts(json, "children")?;
        Ok(
        More {
            children,
        }
        )
    }
}

impl Comment {
    /// Decodes a comment.
    pub fn from_json(json: &Json) -> (outcome: Result<Comment, Diagnostic>)
        ensures
            match outcome {
                Ok(comment) => comment_fault(json@) is None && comment_holds(comment, json@),
                Err(fault) => comment_fault(json@) == Some(fault@),
            },
    {
        let approved_by = read_opt_text(json, "approved_by")?;
        let author = read_text(json, "author")?;
        let author_flair_css_class = read_opt_text(json, "author_flair_css_class")?;
        let author_flair_text = read_opt_text(json, "author_flair_text")?;
        let banned_by = read_opt_text(json, "banned_by")?;
        let body = read_text(json, "body")?;
        let body_html = read_text(json, "body_html")?;
        let special = read_opt_any(json, "special");
        let gilded = read_u64(json, "gilded")?;
        let likes = read_opt_bool(json, "likes")?;
        let link_author = read_opt_text(json, "link_author")?;
        let link_id = read_text(json, "link_id")?;
        let link_title = read_opt_text(json, "link_title")?;
        let link_url = read_opt_text(json, "link_url")?;
        let num_reports = read_opt_u64(json, "num_reports")?;
        let parent_id = read_text(json, "parent_id")?;
        let saved = read_bool(json, "saved")?;
        let score = read_i64(json, "score")?;
        let score_hidden = read_bool(json, "score_hidden")?;
        let subreddit = read_text(json, "subreddit")?;
        let subreddit_id = read_text(json, "subreddit_id")?;
        let distinguished = read_opt_text(json, "distinguished")?;
        let votable = Votable::from_flattened(json)?;
        let created = Created::from_json(json)?;
        Ok(
        Comment {
            approved_by,
            author,
            author_flair_css_class,
            author_flair_text,
            banned_by,
            body,
            body_html,
            special,
            gilded,
            likes,
            link_author,
            link_id,
            link_title,
            link_url,
            num_reports,
            parent_id,
            saved,
            score,
            score_hidden,
            subreddit,
            subreddit_id,
            distinguished,
            votable,
            created,
        }
        )
    }
}

impl Listing {
    /// Decodes a listing, and in it each of its children.
    pub fn from_json(json: &Json) -> (outcome: Result<Listing, Diagnostic>)
        ensures
            match outcome {
                Ok(listing) => listing_fault(json@) is None && listing_holds(listing, json@),
                Err(fault) => listing_fault(json@) == Some(fault@),
            },
        decreases json@, 0nat,
    {
        let before = read_opt_text(json, "before")?;
        let after = read_opt_text(json, "after")?;
        let modhash = read_text(json, "modhash")?;
        let children = match json.get("children") {
            None => {
                return Err(missing_field("children"));
            },
            Some(Json::Array(items)) => {
                proof {
                    lemma_field_smaller(json@, "children"@);
                    assert(items_of(items@) =~= json@.field("children"@)->Some_0->Array_0);
                }
                decode_things(items)?
            },
            Some(_) => {
                return Err(mistyped_field("children"));
            },
        };
        Ok(
        Listing {
            before,
            after,
            modhash,
            children,
        }
        )
    }
}

/// Decodes each item of `items` as an envelope, in order, and stops at the
/// first that has a fault.
pub fn decode_things(items: &Vec<Json>) -> (outcome: Result<Vec<Thing>, Diagnostic>)
    ensures
        match outcome {
            Ok(things) => things_fault(items_of(items@), 0) is None && things_hold(things@, items_of(items@)),
            Err(fault) => things_fault(items_of(items@), 0) == Some(fault@),
        },
    decreases items_of(items@), 1nat,
{
    let ghost values = items_of(items@);
    let mut things: Vec<Thing> = Vec::new();
    let mut i: usize = 0;
    while i < items.len()
        invariant
            i <= items@.len(),
            values == items_of(items@),
            things@.len() == i,
            forall|k: int| #![trigger things@[k]] 0 <= k < i ==> thing_holds(things@[k], values[k]),
            things_fault(values, 0) == things_fault(values, i as nat),
        decreases items@.len() - i,
    {
        match Thing::from_json(&items[i]) {
            Ok(thing) => {
                things.push(thing);
            },
            Err(fault) => {
                return Err(fault);
            },
        }
        i += 1;
    }
    Ok(things)
}

impl Thing {
    /// Decodes an envelope and, by its kind, the payload in it.
    pub fn from_json(json: &Json) -> (outcome: Result<Thing, Diagnostic>)
        ensures
            match outcome {
                Ok(thing) => thing_fault(json@) is None && thing_holds(thing, json@),
                Err(fault) => thing_fault(json@) == Some(fault@),
            },
        decreases json@, 0nat,
    {
        let id = read_opt_text(json, "id")?;
        let name = read_opt_text(json, "name")?;
        let kind = read_text(json, "kind")?;
        let listing = str_eq(kind.as_str(), "Listing");
        let more = str_eq(kind.as_str(), "more");
        let comment = str_eq(kind.as_str(), "t1");
        let link = str_eq(kind.as_str(), "t3");
        if !listing && !more && !comment && !link {
            return Err(unknown_variant_of(kind.as_str()));
        }
        let payload = match json.get("data") {
            None => {
                return Err(missing_field("data"));
            },
            Some(payload) => payload,
        };
        proof {
            lemma_field_smaller(json@, "data"@);
        }
        let data = if listing {
            ThingData::Listing(Box::new(Listing::from_json(payload)?))
        } else if more {
            ThingData::More(More::from_json(payload)?)
        } else if comment {
            ThingData::Comment(Box::new(Comment::from_json(payload)?))
        } else {
            ThingData::Link(Box::new(Link::from_json(payload)?))
        };
        Ok(Thing { id, name, data })
    }
}

} // verus!
