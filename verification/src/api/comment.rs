//! Comments, the replies under them, and the markers that stand for
//! subtrees not yet loaded.

use crate::api::distinguished::Distinguished;
use crate::api::edited::Edited;
use crate::api::reports::{decode_moderator_reports, encode_moderator_reports,
    moderator_reports_decode, moderator_reports_encoded, SubmissionModeratorReport};
use crate::api::response::{listing_children, open_listing, open_thing, thing_data, thing_kind,
    BasicThing, Listing, ListingHead, OuterBasicListing};
use crate::decode::{bool_field, encode_i32, encode_number, encode_opt_bool,
    encode_opt_fullname, encode_opt_i32, encode_opt_json, encode_opt_number, encode_opt_str,
    encode_opt_values, encode_str, encode_values, field, fullname_field, int_field,
    lemma_field_at, lemma_field_decreases, lemma_item_decreases, member, number_field, opt_bool,
    opt_bool_field, opt_bool_value, opt_fullname, opt_fullname_field, opt_fullname_text,
    opt_fullname_value, opt_i32, opt_i32_int, opt_i32_value, opt_int_field, opt_json,
    opt_json_value, opt_json_view, opt_jsons_view, opt_number, opt_number_field,
    opt_number_value, opt_number_view, opt_str, opt_str_field, opt_str_value, opt_text,
    opt_values, opt_values_field, opt_values_value, present, req_bool, req_fullname, req_i32,
    req_json, req_number, req_str, req_values, str_field, values_field, Decode, DecodeError};
use crate::fullname::{valid_fullname, ThingFullname};
use crate::json::{jsons_view, lemma_array_view, lemma_object_view, number_of_i64, number_view,
    Json, JsonValue, Member, MemberValue, NumberValue};
use crate::text::{html_unescaped, str_eq, unescape_html};
use vstd::prelude::*;
use vstd::string::StringExecFns;

verus! {

/// A marker for comments that are not loaded yet.
#[derive(Debug, PartialEq)]
pub struct MoreCommentData {
    /// The id of the marker.
    pub id: String,
    /// The fullname of the marker.
    pub name: ThingFullname,
    /// The fullname of the thing under which the comments stand.
    pub parent_id: ThingFullname,
    /// How many comments the marker stands for.
    pub count: i32,
    /// How deep below the submission the comments stand.
    pub depth: i32,
}

impl Decode for MoreCommentData {
    /// Whether a document is a marker.
    open spec fn decodes(doc: JsonValue) -> bool {
        &&& str_field(doc, "id"@) is Some
        &&& fullname_field(doc, "name"@) is Some
        &&& fullname_field(doc, "parent_id"@) is Some
        &&& int_field(doc, "count"@, i32::MIN as int, i32::MAX as int) is Some
        &&& int_field(doc, "depth"@, i32::MIN as int, i32::MAX as int) is Some
    }

    /// Whether the marker holds what the document says.
    open spec fn agrees(&self, doc: JsonValue) -> bool {
        &&& str_field(doc, "id"@) == Some(self.id@)
        &&& fullname_field(doc, "name"@) == Some(self.name@)
        &&& fullname_field(doc, "parent_id"@) == Some(self.parent_id@)
        &&& int_field(doc, "count"@, i32::MIN as int, i32::MAX as int) == Some(self.count as int)
        &&& int_field(doc, "depth"@, i32::MIN as int, i32::MAX as int) == Some(self.depth as int)
    }

    /// Reads a marker from a document.
    fn decode(doc: &Json) -> (r: Result<Self, DecodeError>) {
        let id = req_str(doc, "id")?;
        let name = req_fullname(doc, "name")?;
        let parent_id = req_fullname(doc, "parent_id")?;
        let count = req_i32(doc, "count")?;
        let depth = req_i32(doc, "depth")?;
        Ok(MoreCommentData { id, name, parent_id, count, depth })
    }
}

impl MoreCommentData {
    /// The document that stands for a marker.
    pub open spec fn encoded(&self) -> JsonValue {
        JsonValue::Object(
            seq![
                MemberValue { key: "id"@, value: JsonValue::Str(self.id@) },
                MemberValue { key: "name"@, value: JsonValue::Str(self.name@) },
                MemberValue { key: "parent_id"@, value: JsonValue::Str(self.parent_id@) },
                MemberValue {
                    key: "count"@,
                    value: JsonValue::Number(NumberValue::Int(self.count as int)),
                },
                MemberValue {
                    key: "depth"@,
                    value: JsonValue::Number(NumberValue::Int(self.depth as int)),
                },
            ],
        )
    }

    /// Writes a marker as a document.
    pub fn encode(&self) -> (j: Json)
        ensures
            j@ == self.encoded(),
    {
        let mut members: Vec<Member> = Vec::new();
        members.push(Member { key: String::from_str("id"), value: Json::Str(self.id.clone()) });
        members.push(
            Member {
                key: String::from_str("name"),
                value: Json::Str(self.name.full().to_owned()),
            },
        );
        members.push(
            Member {
                key: String::from_str("parent_id"),
                value: Json::Str(self.parent_id.full().to_owned()),
            },
        );
        members.push(
            Member {
                key: String::from_str("count"),
                value: Json::Number(number_of_i64(self.count as i64)),
            },
        );
        members.push(
            Member {
                key: String::from_str("depth"),
                value: Json::Number(number_of_i64(self.depth as i64)),
            },
        );
        let j = Json::Object(members);
        proof {
            lemma_object_view(j);
            assert(j@->Object_0 =~= self.encoded()->Object_0);
        }
        j
    }

    /// What was written is read again, and as the marker that was written.
    pub proof fn lemma_round_trip(&self)
        requires
            crate::fullname::valid_fullname(self.name@),
            crate::fullname::valid_fullname(self.parent_id@),
        ensures
            Self::decodes(self.encoded()),
            self.agrees(self.encoded()),
    {
        reveal_strlit("id");
        reveal_strlit("name");
        reveal_strlit("parent_id");
        reveal_strlit("count");
        reveal_strlit("depth");
        let members = self.encoded()->Object_0;
        assert(members[0].key == "id"@ && members[1].key == "name"@ && members[2].key
            == "parent_id"@ && members[3].key == "count"@ && members[4].key == "depth"@);
        assert("id"@.len() == 2 && "name"@.len() == 4 && "parent_id"@.len() == 9);
        assert("count"@[0] == 'c' && "depth"@[0] == 'd');
        lemma_field_at(members, "id"@, 0);
        lemma_field_at(members, "name"@, 1);
        lemma_field_at(members, "parent_id"@, 2);
        lemma_field_at(members, "count"@, 3);
        lemma_field_at(members, "depth"@, 4);
    }
}

/// What every kind of comment holds.
#[derive(Debug, PartialEq)]
pub struct CommonCommentData {
    /// The awards given to the comment.
    pub all_awardings: Vec<Json>,
    /// Whether the comment was approved.
    pub approved: Option<bool>,
    /// When the comment was approved.
    pub approved_at_utc: Option<serde_json::Number>,
    /// Which moderator approved the comment.
    pub approved_by: Option<String>,
    /// Whether the submission is archived.
    pub archived: bool,
    /// The award that the comment is about.
    pub associated_award: Option<Json>,
    /// The name of the author.
    pub author: String,
    /// The background colour of the author's flair.
    pub author_flair_background_color: Option<Json>,
    /// The CSS class of the author's flair.
    pub author_flair_css_class: Option<Json>,
    /// The author's flair as rich text.
    pub author_flair_richtext: Option<Json>,
    /// The text of the author's flair.
    pub author_flair_text: Option<String>,
    /// The colour of the text of the author's flair.
    pub author_flair_text_color: Option<Json>,
    /// The type of the author's flair.
    pub author_flair_type: Option<String>,
    /// The id of the template of the author's flair.
    pub author_flair_template_id: Option<String>,
    /// The fullname of the author.
    pub author_fullname: Option<ThingFullname>,
    /// Whether the viewer has blocked the author.
    pub author_is_blocked: bool,
    /// Whether the author has a Patreon flair.
    pub author_patreon_flair: Option<bool>,
    /// Whether the author has a premium account.
    pub author_premium: Option<bool>,
    /// Who gave awards to the comment.
    pub awarders: Vec<Json>,
    /// When the comment was banned.
    pub banned_at_utc: Option<serde_json::Number>,
    /// Who banned the comment.
    pub banned_by: Option<Json>,
    /// The text, with HTML character references replaced.
    pub body: String,
    /// The text as HTML, as the API sends it.
    pub body_html: String,
    /// Whether the comment can be gilded.
    pub can_gild: bool,
    /// Whether the viewer moderates the subreddit.
    pub can_mod_post: bool,
    /// Whether the comment is collapsed.
    pub collapsed: bool,
    /// Whether crowd control collapsed the comment.
    pub collapsed_because_crowd_control: Option<Json>,
    /// Why the comment is collapsed.
    pub collapsed_reason: Option<Json>,
    /// The code of the reason for which the comment is collapsed.
    pub collapsed_reason_code: Option<Json>,
    /// The type of the comment.
    pub comment_type: Option<Json>,
    /// How controversial the comment is.
    pub controversiality: i32,
    /// When the comment was made, in local time.
    pub created: serde_json::Number,
    /// When the comment was made, in UTC.
    pub created_utc: serde_json::Number,
    /// How the comment is distinguished.
    pub distinguished: Distinguished,
    /// The number of downvotes.
    pub downs: i32,
    /// Whether, and when, the comment was edited.
    pub edited: Edited,
    /// How often the comment was gilded.
    pub gilded: i32,
    /// The gildings of the comment.
    pub gildings: Json,
    /// The id of the comment.
    pub id: String,
    /// Whether reports on the comment are ignored.
    pub ignore_reports: Option<bool>,
    /// Whether the author also made the submission.
    pub is_submitter: bool,
    /// How the viewer voted.
    pub likes: Option<Json>,
    /// The fullname of the submission under which the comment stands.
    pub link_id: ThingFullname,
    /// Whether the comment is locked.
    pub locked: bool,
    /// The note of the moderators.
    pub mod_note: Option<Json>,
    /// Who gave the reason of the moderators.
    pub mod_reason_by: Option<Json>,
    /// The title of the reason of the moderators.
    pub mod_reason_title: Option<Json>,
    /// The reports by moderators.
    pub mod_reports: Vec<SubmissionModeratorReport>,
    /// The fullname of the comment.
    pub name: ThingFullname,
    /// Whether links in the comment are not to be followed.
    pub no_follow: bool,
    /// The number of reports.
    pub num_reports: Option<i32>,
    /// The fullname of the submission or comment that this one answers.
    pub parent_id: ThingFullname,
    /// The path of the comment on the site.
    pub permalink: String,
    /// Why the comment was removed.
    pub removal_reason: Option<Json>,
    /// Whether the comment was removed.
    pub removed: Option<bool>,
    /// The reasons of the reports.
    pub report_reasons: Option<Vec<Json>>,
    /// Whether the viewer has saved the comment.
    pub saved: bool,
    /// The score.
    pub score: i32,
    /// Whether the score is hidden.
    pub score_hidden: bool,
    /// Whether replies are sent to the author's inbox.
    pub send_replies: bool,
    /// Whether the comment was removed as spam.
    pub spam: Option<bool>,
    /// Whether the comment is stickied.
    pub stickied: bool,
    /// The name of the subreddit.
    pub subreddit: String,
    /// The fullname of the subreddit.
    pub subreddit_id: ThingFullname,
    /// The name of the subreddit, with its prefix.
    pub subreddit_name_prefixed: String,
    /// The type of the subreddit.
    pub subreddit_type: String,
    /// The type of the highest award.
    pub top_awarded_type: Option<Json>,
    /// The number of awards received.
    pub total_awards_received: i32,
    /// The treatment tags.
    pub treatment_tags: Vec<Json>,
    /// Why the comment cannot be answered.
    pub unrepliable_reason: Option<Json>,
    /// The number of upvotes.
    pub ups: i32,
    /// The reports by users, as the API sends them.
    pub user_reports: Vec<Json>,
}

impl Decode for CommonCommentData {
    open spec fn decodes(doc: JsonValue) -> bool {
        &&& values_field(doc, "all_awardings"@) is Some
        &&& opt_bool_field(doc, "approved"@) is Some
        &&& opt_number_field(doc, "approved_at_utc"@) is Some
        &&& opt_str_field(doc, "approved_by"@) is Some
        &&& bool_field(doc, "archived"@) is Some
        &&& str_field(doc, "author"@) is Some
        &&& opt_str_field(doc, "author_flair_text"@) is Some
        &&& opt_str_field(doc, "author_flair_type"@) is Some
        &&& opt_str_field(doc, "author_flair_template_id"@) is Some
        &&& opt_fullname_field(doc, "author_fullname"@) is Some
        &&& bool_field(doc, "author_is_blocked"@) is Some
        &&& opt_bool_field(doc, "author_patreon_flair"@) is Some
        &&& opt_bool_field(doc, "author_premium"@) is Some
        &&& values_field(doc, "awarders"@) is Some
        &&& opt_number_field(doc, "banned_at_utc"@) is Some
        &&& str_field(doc, "body"@) is Some
        &&& str_field(doc, "body_html"@) is Some
        &&& bool_field(doc, "can_gild"@) is Some
        &&& bool_field(doc, "can_mod_post"@) is Some
        &&& bool_field(doc, "collapsed"@) is Some
        &&& int_field(doc, "controversiality"@, i32::MIN as int, i32::MAX as int) is Some
        &&& number_field(doc, "created"@) is Some
        &&& number_field(doc, "created_utc"@) is Some
        &&& Distinguished::field_decoded(doc, "distinguished"@) is Some
        &&& int_field(doc, "downs"@, i32::MIN as int, i32::MAX as int) is Some
        &&& field(doc, "edited"@) matches Some(v) && Edited::decodes(v)
        &&& int_field(doc, "gilded"@, i32::MIN as int, i32::MAX as int) is Some
        &&& field(doc, "gildings"@) is Some
        &&& str_field(doc, "id"@) is Some
        &&& opt_bool_field(doc, "ignore_reports"@) is Some
        &&& bool_field(doc, "is_submitter"@) is Some
        &&& fullname_field(doc, "link_id"@) is Some
        &&& bool_field(doc, "locked"@) is Some
        &&& field(doc, "mod_reports"@) matches Some(v) && moderator_reports_decode(v)
        &&& fullname_field(doc, "name"@) is Some
        &&& bool_field(doc, "no_follow"@) is Some
        &&& opt_int_field(doc, "num_reports"@, i32::MIN as int, i32::MAX as int) is Some
        &&& fullname_field(doc, "parent_id"@) is Some
        &&& str_field(doc, "permalink"@) is Some
        &&& opt_bool_field(doc, "removed"@) is Some
        &&& opt_values_field(doc, "report_reasons"@) is Some
        &&& bool_field(doc, "saved"@) is Some
        &&& int_field(doc, "score"@, i32::MIN as int, i32::MAX as int) is Some
        &&& bool_field(doc, "score_hidden"@) is Some
        &&& bool_field(doc, "send_replies"@) is Some
        &&& opt_bool_field(doc, "spam"@) is Some
        &&& bool_field(doc, "stickied"@) is Some
        &&& str_field(doc, "subreddit"@) is Some
        &&& fullname_field(doc, "subreddit_id"@) is Some
        &&& str_field(doc, "subreddit_name_prefixed"@) is Some
        &&& str_field(doc, "subreddit_type"@) is Some
        &&& int_field(doc, "total_awards_received"@, i32::MIN as int, i32::MAX as int) is Some
        &&& values_field(doc, "treatment_tags"@) is Some
        &&& int_field(doc, "ups"@, i32::MIN as int, i32::MAX as int) is Some
        &&& values_field(doc, "user_reports"@) is Some
    }

    /// The body is the document's body with its HTML character references
    /// replaced; the HTML body is taken as it is.
    open spec fn agrees(&self, doc: JsonValue) -> bool {
        &&& values_field(doc, "all_awardings"@) == Some(jsons_view(self.all_awardings@))
        &&& opt_bool_field(doc, "approved"@) == Some(self.approved)
        &&& opt_number_field(doc, "approved_at_utc"@) == Some(opt_number_view(self.approved_at_utc))
        &&& opt_str_field(doc, "approved_by"@) == Some(opt_text(self.approved_by))
        &&& bool_field(doc, "archived"@) == Some(self.archived)
        &&& present(doc, "associated_award"@) == opt_json_view(self.associated_award)
        &&& str_field(doc, "author"@) == Some(self.author@)
        &&& present(doc, "author_flair_background_color"@) == opt_json_view(self.author_flair_background_color)
        &&& present(doc, "author_flair_css_class"@) == opt_json_view(self.author_flair_css_class)
        &&& present(doc, "author_flair_richtext"@) == opt_json_view(self.author_flair_richtext)
        &&& opt_str_field(doc, "author_flair_text"@) == Some(opt_text(self.author_flair_text))
        &&& present(doc, "author_flair_text_color"@) == opt_json_view(self.author_flair_text_color)
        &&& opt_str_field(doc, "author_flair_type"@) == Some(opt_text(self.author_flair_type))
        &&& opt_str_field(doc, "author_flair_template_id"@) == Some(opt_text(self.author_flair_template_id))
        &&& opt_fullname_field(doc, "author_fullname"@) == Some(opt_fullname_text(self.author_fullname))
        &&& bool_field(doc, "author_is_blocked"@) == Some(self.author_is_blocked)
        &&& opt_bool_field(doc, "author_patreon_flair"@) == Some(self.author_patreon_flair)
        &&& opt_bool_field(doc, "author_premium"@) == Some(self.author_premium)
        &&& values_field(doc, "awarders"@) == Some(jsons_view(self.awarders@))
        &&& opt_number_field(doc, "banned_at_utc"@) == Some(opt_number_view(self.banned_at_utc))
        &&& present(doc, "banned_by"@) == opt_json_view(self.banned_by)
        &&& str_field(doc, "body"@) matches Some(raw) && self.body@ == html_unescaped(raw)
        &&& str_field(doc, "body_html"@) == Some(self.body_html@)
        &&& bool_field(doc, "can_gild"@) == Some(self.can_gild)
        &&& bool_field(doc, "can_mod_post"@) == Some(self.can_mod_post)
        &&& bool_field(doc, "collapsed"@) == Some(self.collapsed)
        &&& present(doc, "collapsed_because_crowd_control"@) == opt_json_view(self.collapsed_because_crowd_control)
        &&& present(doc, "collapsed_reason"@) == opt_json_view(self.collapsed_reason)
        &&& present(doc, "collapsed_reason_code"@) == opt_json_view(self.collapsed_reason_code)
        &&& present(doc, "comment_type"@) == opt_json_view(self.comment_type)
        &&& int_field(doc, "controversiality"@, i32::MIN as int, i32::MAX as int) == Some(self.controversiality as int)
        &&& number_field(doc, "created"@) == Some(number_view(self.created))
        &&& number_field(doc, "created_utc"@) == Some(number_view(self.created_utc))
        &&& Distinguished::field_decoded(doc, "distinguished"@) == Some(self.distinguished)
        &&& int_field(doc, "downs"@, i32::MIN as int, i32::MAX as int) == Some(self.downs as int)
        &&& field(doc, "edited"@) == Some(self.edited.encoded())
        &&& int_field(doc, "gilded"@, i32::MIN as int, i32::MAX as int) == Some(self.gilded as int)
        &&& field(doc, "gildings"@) == Some(self.gildings@)
        &&& str_field(doc, "id"@) == Some(self.id@)
        &&& opt_bool_field(doc, "ignore_reports"@) == Some(self.ignore_reports)
        &&& bool_field(doc, "is_submitter"@) == Some(self.is_submitter)
        &&& present(doc, "likes"@) == opt_json_view(self.likes)
        &&& fullname_field(doc, "link_id"@) == Some(self.link_id@)
        &&& bool_field(doc, "locked"@) == Some(self.locked)
        &&& present(doc, "mod_note"@) == opt_json_view(self.mod_note)
        &&& present(doc, "mod_reason_by"@) == opt_json_view(self.mod_reason_by)
        &&& present(doc, "mod_reason_title"@) == opt_json_view(self.mod_reason_title)
        &&& field(doc, "mod_reports"@) == Some(moderator_reports_encoded(self.mod_reports@))
        &&& fullname_field(doc, "name"@) == Some(self.name@)
        &&& bool_field(doc, "no_follow"@) == Some(self.no_follow)
        &&& opt_int_field(doc, "num_reports"@, i32::MIN as int, i32::MAX as int) == Some(opt_i32_int(self.num_reports))
        &&& fullname_field(doc, "parent_id"@) == Some(self.parent_id@)
        &&& str_field(doc, "permalink"@) == Some(self.permalink@)
        &&& present(doc, "removal_reason"@) == opt_json_view(self.removal_reason)
        &&& opt_bool_field(doc, "removed"@) == Some(self.removed)
        &&& opt_values_field(doc, "report_reasons"@) == Some(opt_jsons_view(self.report_reasons))
        &&& bool_field(doc, "saved"@) == Some(self.saved)
        &&& int_field(doc, "score"@, i32::MIN as int, i32::MAX as int) == Some(self.score as int)
        &&& bool_field(doc, "score_hidden"@) == Some(self.score_hidden)
        &&& bool_field(doc, "send_replies"@) == Some(self.send_replies)
        &&& opt_bool_field(doc, "spam"@) == Some(self.spam)
        &&& bool_field(doc, "stickied"@) == Some(self.stickied)
        &&& str_field(doc, "subreddit"@) == Some(self.subreddit@)
        &&& fullname_field(doc, "subreddit_id"@) == Some(self.subreddit_id@)
        &&& str_field(doc, "subreddit_name_prefixed"@) == Some(self.subreddit_name_prefixed@)
        &&& str_field(doc, "subreddit_type"@) == Some(self.subreddit_type@)
        &&& present(doc, "top_awarded_type"@) == opt_json_view(self.top_awarded_type)
        &&& int_field(doc, "total_awards_received"@, i32::MIN as int, i32::MAX as int) == Some(self.total_awards_received as int)
        &&& values_field(doc, "treatment_tags"@) == Some(jsons_view(self.treatment_tags@))
        &&& present(doc, "unrepliable_reason"@) == opt_json_view(self.unrepliable_reason)
        &&& int_field(doc, "ups"@, i32::MIN as int, i32::MAX as int) == Some(self.ups as int)
        &&& values_field(doc, "user_reports"@) == Some(jsons_view(self.user_reports@))
    }

    fn decode(doc: &Json) -> (r: Result<Self, DecodeError>) {
        let all_awardings = req_values(doc, "all_awardings")?;
        let approved = opt_bool(doc, "approved")?;
        let approved_at_utc = opt_number(doc, "approved_at_utc")?;
        let approved_by = opt_str(doc, "approved_by")?;
        let archived = req_bool(doc, "archived")?;
        let associated_award = opt_json(doc, "associated_award");
        let author = req_str(doc, "author")?;
        let author_flair_background_color = opt_json(doc, "author_flair_background_color");
        let author_flair_css_class = opt_json(doc, "author_flair_css_class");
        let author_flair_richtext = opt_json(doc, "author_flair_richtext");
        let author_flair_text = opt_str(doc, "author_flair_text")?;
        let author_flair_text_color = opt_json(doc, "author_flair_text_color");
        let author_flair_type = opt_str(doc, "author_flair_type")?;
        let author_flair_template_id = opt_str(doc, "author_flair_template_id")?;
        let author_fullname = opt_fullname(doc, "author_fullname")?;
        let author_is_blocked = req_bool(doc, "author_is_blocked")?;
        let author_patreon_flair = opt_bool(doc, "author_patreon_flair")?;
        let author_premium = opt_bool(doc, "author_premium")?;
        let awarders = req_values(doc, "awarders")?;
        let banned_at_utc = opt_number(doc, "banned_at_utc")?;
        let banned_by = opt_json(doc, "banned_by");
        let body = unescape_html(req_str(doc, "body")?.as_str());
        let body_html = req_str(doc, "body_html")?;
        let can_gild = req_bool(doc, "can_gild")?;
        let can_mod_post = req_bool(doc, "can_mod_post")?;
        let collapsed = req_bool(doc, "collapsed")?;
        let collapsed_because_crowd_control = opt_json(doc, "collapsed_because_crowd_control");
        let collapsed_reason = opt_json(doc, "collapsed_reason");
        let collapsed_reason_code = opt_json(doc, "collapsed_reason_code");
        let comment_type = opt_json(doc, "comment_type");
        let controversiality = req_i32(doc, "controversiality")?;
        let created = req_number(doc, "created")?;
        let created_utc = req_number(doc, "created_utc")?;
        let distinguished = Distinguished::decode_field(doc, "distinguished")?;
        let downs = req_i32(doc, "downs")?;
        let edited = match doc.get("edited") {
            Some(v) => Edited::decode(v)?,
            None => {
                return Err(DecodeError);
            },
        };
        let gilded = req_i32(doc, "gilded")?;
        let gildings = req_json(doc, "gildings")?;
        let id = req_str(doc, "id")?;
        let ignore_reports = opt_bool(doc, "ignore_reports")?;
        let is_submitter = req_bool(doc, "is_submitter")?;
        let likes = opt_json(doc, "likes");
        let link_id = req_fullname(doc, "link_id")?;
        let locked = req_bool(doc, "locked")?;
        let mod_note = opt_json(doc, "mod_note");
        let mod_reason_by = opt_json(doc, "mod_reason_by");
        let mod_reason_title = opt_json(doc, "mod_reason_title");
        let mod_reports = match doc.get("mod_reports") {
            Some(v) => decode_moderator_reports(v)?,
            None => {
                return Err(DecodeError);
            },
        };
        let name = req_fullname(doc, "name")?;
        let no_follow = req_bool(doc, "no_follow")?;
        let num_reports = opt_i32(doc, "num_reports")?;
        let parent_id = req_fullname(doc, "parent_id")?;
        let permalink = req_str(doc, "permalink")?;
        let removal_reason = opt_json(doc, "removal_reason");
        let removed = opt_bool(doc, "removed")?;
        let report_reasons = opt_values(doc, "report_reasons")?;
        let saved = req_bool(doc, "saved")?;
        let score = req_i32(doc, "score")?;
        let score_hidden = req_bool(doc, "score_hidden")?;
        let send_replies = req_bool(doc, "send_replies")?;
        let spam = opt_bool(doc, "spam")?;
        let stickied = req_bool(doc, "stickied")?;
        let subreddit = req_str(doc, "subreddit")?;
        let subreddit_id = req_fullname(doc, "subreddit_id")?;
        let subreddit_name_prefixed = req_str(doc, "subreddit_name_prefixed")?;
        let subreddit_type = req_str(doc, "subreddit_type")?;
        let top_awarded_type = opt_json(doc, "top_awarded_type");
        let total_awards_received = req_i32(doc, "total_awards_received")?;
        let treatment_tags = req_values(doc, "treatment_tags")?;
        let unrepliable_reason = opt_json(doc, "unrepliable_reason");
        let ups = req_i32(doc, "ups")?;
        let user_reports = req_values(doc, "user_reports")?;
        Ok(
            CommonCommentData {
                all_awardings,
                approved,
                approved_at_utc,
                approved_by,
                archived,
                associated_award,
                author,
                author_flair_background_color,
                author_flair_css_class,
                author_flair_richtext,
                author_flair_text,
                author_flair_text_color,
                author_flair_type,
                author_flair_template_id,
                author_fullname,
                author_is_blocked,
                author_patreon_flair,
                author_premium,
                awarders,
                banned_at_utc,
                banned_by,
                body,
                body_html,
                can_gild,
                can_mod_post,
                collapsed,
                collapsed_because_crowd_control,
                collapsed_reason,
                collapsed_reason_code,
                comment_type,
                controversiality,
                created,
                created_utc,
                distinguished,
                downs,
                edited,
                gilded,
                gildings,
                id,
                ignore_reports,
                is_submitter,
                likes,
                link_id,
                locked,
                mod_note,
                mod_reason_by,
                mod_reason_title,
                mod_reports,
                name,
                no_follow,
                num_reports,
                parent_id,
                permalink,
                removal_reason,
                removed,
                report_reasons,
                saved,
                score,
                score_hidden,
                send_replies,
                spam,
                stickied,
                subreddit,
                subreddit_id,
                subreddit_name_prefixed,
                subreddit_type,
                top_awarded_type,
                total_awards_received,
                treatment_tags,
                unrepliable_reason,
                ups,
                user_reports,
            },
        )
    }
}

impl CommonCommentData {
    /// A document that a value agrees with has the fields of a comment.
    pub proof fn lemma_agrees_decodes(&self, doc: JsonValue)
        requires
            self.agrees(doc),
        ensures
            Self::decodes(doc),
    {
        self.edited.lemma_round_trip();
        crate::api::reports::lemma_moderator_reports_round_trip(self.mod_reports@);
    }
}

/// A comment under a submission, with the replies under it.
#[derive(Debug, PartialEq)]
pub struct ArticleCommentData {
    /// What every kind of comment holds.
    pub common: CommonCommentData,
    /// How deep this comment stands below the submission.
    pub depth: i32,
    /// The replies to this comment.
    pub replies: ArticleReplies,
}

/// The replies to a comment, or nothing where it has none.
#[derive(Debug, PartialEq)]
pub enum ArticleReplies {
    /// It has replies.
    Replies(OuterBasicListing<ArticleCommentOrMoreComments>),
    /// It has none.
    Empty,
}

/// A comment, or a marker for comments not yet loaded.
#[derive(Debug, PartialEq)]
pub enum ArticleCommentOrMoreComments {
    /// A comment or reply; on the wire its kind is `t1`.
    Comment(ArticleCommentData),
    /// More comments to load; on the wire its kind is `more`.
    More(MoreCommentData),
}

/// What stands in a listing beside its children.
pub open spec fn listing_head<T>(listing: Listing<T>) -> ListingHead {
    ListingHead {
        modhash: listing.modhash,
        dist: listing.dist,
        after: listing.after,
        before: listing.before,
    }
}

impl ArticleCommentData {
    /// Whether the comment holds what the document says.
    pub open spec fn agrees(&self, doc: JsonValue) -> bool
        decreases self,
    {
        &&& self.common.agrees(doc)
        &&& int_field(doc, "depth"@, i32::MIN as int, i32::MAX as int) == Some(self.depth as int)
        &&& field(doc, "replies"@) matches Some(replies) && self.replies.agrees(replies)
    }

    /// Reads a comment from a document. It succeeds exactly where some
    /// comment holds what the document says.
    pub fn decode(doc: &Json) -> (r: Result<Self, DecodeError>)
        ensures
            r is Ok <==> exists|c: ArticleCommentData| c.agrees(doc@),
            r matches Ok(c) ==> c.agrees(doc@),
        decreases doc@,
    {
        let common = match CommonCommentData::decode(doc) {
            Ok(common) => common,
            Err(e) => {
                proof {
                    assert forall|c: ArticleCommentData| !c.agrees(doc@) by {
                        if c.agrees(doc@) {
                            c.common.lemma_agrees_decodes(doc@);
                        }
                    }
                }
                return Err(e);
            },
        };
        let depth = match req_i32(doc, "depth") {
            Ok(depth) => depth,
            Err(e) => {
                proof {
                    assert forall|c: ArticleCommentData| !c.agrees(doc@) by {}
                }
                return Err(e);
            },
        };
        let replies_doc = match doc.get("replies") {
            Some(replies_doc) => replies_doc,
            None => {
                proof {
                    assert forall|c: ArticleCommentData| !c.agrees(doc@) by {}
                }
                return Err(DecodeError);
            },
        };
        proof {
            lemma_field_decreases(doc@, "replies"@);
        }
        let replies = match ArticleReplies::decode(replies_doc) {
            Ok(replies) => replies,
            Err(e) => {
                proof {
                    assert forall|c: ArticleCommentData| !c.agrees(doc@) by {
                        if c.agrees(doc@) {
                            assert(c.replies.agrees(replies_doc@));
                        }
                    }
                }
                return Err(e);
            },
        };
        let comment = ArticleCommentData { common, depth, replies };
        proof {
            assert(comment.agrees(doc@));
        }
        Ok(comment)
    }
}

impl ArticleReplies {
    /// Whether the replies hold what the document says: any string stands
    /// for no replies, and an object is a listing, wrapped as a thing, of
    /// comments and markers.
    pub open spec fn agrees(&self, doc: JsonValue) -> bool
        decreases self,
    {
        match self {
            ArticleReplies::Empty => doc is Str,
            ArticleReplies::Replies(thing) => {
                &&& doc is Object
                &&& thing_kind(doc) == opt_text(thing.kind)
                &&& thing_data(doc) matches Some(data)
                &&& listing_head(thing.data).agrees(data)
                &&& listing_children(data) matches Some(children)
                &&& children.len() == thing.data.children@.len()
                &&& forall|i: int|
                    0 <= i < thing.data.children@.len() ==> (
                    #[trigger] thing.data.children@[i]).agrees(children[i])
            },
        }
    }

    /// Reads the replies from a document. It succeeds exactly where some
    /// value holds what the document says.
    pub fn decode(doc: &Json) -> (r: Result<Self, DecodeError>)
        ensures
            r is Ok <==> exists|c: ArticleReplies| c.agrees(doc@),
            r matches Ok(c) ==> c.agrees(doc@),
        decreases doc@,
    {
        match doc {
            Json::Str(_) => {
                proof {
                    assert(ArticleReplies::Empty.agrees(doc@));
                }
                Ok(ArticleReplies::Empty)
            },
            Json::Object(_) => {
                proof {
                    lemma_object_view(*doc);
                }
                let (kind, data) = match open_thing(doc) {
                    Ok(parts) => parts,
                    Err(e) => {
                        proof {
                            assert forall|c: ArticleReplies| !c.agrees(doc@) by {}
                        }
                        return Err(e);
                    },
                };
                let (head, docs) = match open_listing(data) {
                    Ok(parts) => parts,
                    Err(e) => {
                        proof {
                            assert forall|c: ArticleReplies| !c.agrees(doc@) by {}
                        }
                        return Err(e);
                    },
                };
                let ghost models = listing_children(data@)->0;
                let mut children: Vec<ArticleCommentOrMoreComments> = Vec::new();
                let mut i: usize = 0;
                while i < docs.len()
                    invariant
                        i <= docs.len(),
                        children@.len() == i,
                        doc@ is Object,
                        thing_data(doc@) == Some(data@),
                        listing_children(data@) == Some(models),
                        models.len() == docs@.len(),
                        forall|k: int| 0 <= k < docs@.len() ==> models[k] == (#[trigger] docs@[k])@,
                        forall|k: int|
                            0 <= k < i ==> (#[trigger] children@[k]).agrees(models[k]),
                    decreases docs.len() - i,
                {
                    proof {
                        lemma_field_decreases(doc@, "data"@);
                        lemma_field_decreases(data@, "children"@);
                        lemma_item_decreases(field(data@, "children"@)->0, i as int);
                    }
                    match ArticleCommentOrMoreComments::decode(&docs[i]) {
                        Ok(child) => {
                            children.push(child);
                        },
                        Err(e) => {
                            proof {
                                assert forall|c: ArticleReplies| !c.agrees(doc@) by {
                                    if c.agrees(doc@) {
                                        let thing = c->Replies_0;
                                        assert(thing.data.children@[i as int].agrees(
                                            models[i as int],
                                        ));
                                    }
                                }
                            }
                            return Err(e);
                        },
                    }
                    i = i + 1;
                }
                let ListingHead { modhash, dist, after, before } = head;
                let replies = ArticleReplies::Replies(
                    BasicThing { kind, data: Listing { modhash, dist, after, before, children } },
                );
                proof {
                    assert(replies.agrees(doc@));
                }
                Ok(replies)
            },
            _ => {
                proof {
                    assert forall|c: ArticleReplies| !c.agrees(doc@) by {}
                }
                Err(DecodeError)
            },
        }
    }
}

impl ArticleCommentOrMoreComments {
    /// Whether the value holds what the document says: the member `kind`
    /// tells a comment (`t1`) from a marker (`more`), and the member
    /// `data` holds it.
    pub open spec fn agrees(&self, doc: JsonValue) -> bool
        decreases self,
    {
        match self {
            ArticleCommentOrMoreComments::Comment(comment) => {
                &&& str_field(doc, "kind"@) == Some("t1"@)
                &&& field(doc, "data"@) matches Some(data) && comment.agrees(data)
            },
            ArticleCommentOrMoreComments::More(more) => {
                &&& str_field(doc, "kind"@) == Some("more"@)
                &&& field(doc, "data"@) matches Some(data) && more.agrees(data)
            },
        }
    }

    /// Reads a comment or a marker from a document. It succeeds exactly
    /// where some value holds what the document says.
    pub fn decode(doc: &Json) -> (r: Result<Self, DecodeError>)
        ensures
            r is Ok <==> exists|c: ArticleCommentOrMoreComments| c.agrees(doc@),
            r matches Ok(c) ==> c.agrees(doc@),
        decreases doc@,
    {
        proof {
            reveal_strlit("t1");
            reveal_strlit("more");
        }
        let kind = match req_str(doc, "kind") {
            Ok(kind) => kind,
            Err(e) => {
                proof {
                    assert forall|c: ArticleCommentOrMoreComments| !c.agrees(doc@) by {}
                }
                return Err(e);
            },
        };
        let data = match doc.get("data") {
            Some(data) => data,
            None => {
                proof {
                    assert forall|c: ArticleCommentOrMoreComments| !c.agrees(doc@) by {}
                }
                return Err(DecodeError);
            },
        };
        proof {
            lemma_field_decreases(doc@, "data"@);
            assert("t1"@.len() != "more"@.len());
        }
        if str_eq(kind.as_str(), "t1") {
            match ArticleCommentData::decode(data) {
                Ok(comment) => {
                    let child = ArticleCommentOrMoreComments::Comment(comment);
                    proof {
                        assert(child.agrees(doc@));
                    }
                    Ok(child)
                },
                Err(e) => {
                    proof {
                        assert forall|c: ArticleCommentOrMoreComments| !c.agrees(doc@) by {
                            if c.agrees(doc@) {
                                assert(c->Comment_0.agrees(data@));
                            }
                        }
                    }
                    Err(e)
                },
            }
        } else if str_eq(kind.as_str(), "more") {
            match MoreCommentData::decode(data) {
                Ok(more) => {
                    let child = ArticleCommentOrMoreComments::More(more);
                    proof {
                        assert(child.agrees(doc@));
                    }
                    Ok(child)
                },
                Err(e) => {
                    proof {
                        assert forall|c: ArticleCommentOrMoreComments| !c.agrees(doc@) by {}
                    }
                    Err(e)
                },
            }
        } else {
            proof {
                assert forall|c: ArticleCommentOrMoreComments| !c.agrees(doc@) by {}
            }
            Err(DecodeError)
        }
    }
}

/// The comments under a submission: the second of the two listings that
/// the API returns for a submission's page.
#[derive(Debug, PartialEq)]
pub struct ArticleCommentsResponse {
    /// The comments and markers at the top level.
    pub comments: OuterBasicListing<ArticleCommentOrMoreComments>,
}

impl Decode for ArticleCommentsResponse {
    /// A document is such a response where some response holds what it
    /// says.
    open spec fn decodes(doc: JsonValue) -> bool {
        exists|c: ArticleCommentsResponse| c.agrees(doc)
    }

    /// Whether the response holds what the document says: the document is
    /// an array of two items, and the second is the listing of the
    /// comments. The first item is not looked at.
    open spec fn agrees(&self, doc: JsonValue) -> bool {
        &&& doc matches JsonValue::Array(items)
        &&& items.len() == 2
        &&& items[1] is Object
        &&& ArticleReplies::Replies(self.comments).agrees(items[1])
    }

    fn decode(doc: &Json) -> (r: Result<Self, DecodeError>) {
        let items = match doc.as_array() {
            Some(items) => items,
            None => {
                proof {
                    assert forall|c: ArticleCommentsResponse| !c.agrees(doc@) by {}
                }
                return Err(DecodeError);
            },
        };
        if items.len() != 2 {
            proof {
                assert forall|c: ArticleCommentsResponse| !c.agrees(doc@) by {}
            }
            return Err(DecodeError);
        }
        match &items[1] {
            Json::Object(_) => {},
            _ => {
                proof {
                    assert forall|c: ArticleCommentsResponse| !c.agrees(doc@) by {}
                }
                return Err(DecodeError);
            },
        }
        proof {
            lemma_object_view(items[1]);
        }
        match ArticleReplies::decode(&items[1]) {
            Ok(ArticleReplies::Replies(comments)) => {
                let response = ArticleCommentsResponse { comments };
                proof {
                    assert(response.agrees(doc@));
                }
                Ok(response)
            },
            Ok(ArticleReplies::Empty) => {
                proof {
                    assert(false);
                }
                Err(DecodeError)
            },
            Err(e) => {
                proof {
                    assert forall|c: ArticleCommentsResponse| !c.agrees(doc@) by {
                        if c.agrees(doc@) {
                            assert(ArticleReplies::Replies(c.comments).agrees(items@[1]@));
                        }
                    }
                }
                Err(e)
            },
        }
    }
}

/// A member with this key and value.
pub open spec fn mv(key: Seq<char>, value: JsonValue) -> MemberValue {
    MemberValue { key, value }
}

/// Whether the members of a list carry, one for one, the keys and values
/// of a list of models.
pub open spec fn members_are(members: Seq<Member>, models: Seq<MemberValue>) -> bool {
    &&& members.len() == models.len()
    &&& forall|i: int|
        0 <= i < members.len() ==> (#[trigger] members[i]).key@ == models[i].key
            && members[i].value@ == models[i].value
}

fn object_of(members: Vec<Member>, Ghost(models): Ghost<Seq<MemberValue>>) -> (j: Json)
    requires
        members_are(members@, models),
    ensures
        j@ == JsonValue::Object(models),
{
    let j = Json::Object(members);
    proof {
        lemma_object_view(j);
        assert(j@->Object_0 =~= models);
    }
    j
}

impl CommonCommentData {
    /// The members that stand for the fields from `all_awardings` to `author_premium`.
    pub open spec fn encoded_members_a(&self) -> Seq<MemberValue> {
        seq![
            mv("all_awardings"@, JsonValue::Array(jsons_view(self.all_awardings@))),
            mv("approved"@, opt_bool_value(self.approved)),
            mv("approved_at_utc"@, opt_number_value(self.approved_at_utc)),
            mv("approved_by"@, opt_str_value(self.approved_by)),
            mv("archived"@, JsonValue::Bool(self.archived)),
            mv("associated_award"@, opt_json_value(self.associated_award)),
            mv("author"@, JsonValue::Str(self.author@)),
            mv("author_flair_background_color"@, opt_json_value(self.author_flair_background_color)),
            mv("author_flair_css_class"@, opt_json_value(self.author_flair_css_class)),
            mv("author_flair_richtext"@, opt_json_value(self.author_flair_richtext)),
            mv("author_flair_text"@, opt_str_value(self.author_flair_text)),
            mv("author_flair_text_color"@, opt_json_value(self.author_flair_text_color)),
            mv("author_flair_type"@, opt_str_value(self.author_flair_type)),
            mv("author_flair_template_id"@, opt_str_value(self.author_flair_template_id)),
            mv("author_fullname"@, opt_fullname_value(self.author_fullname)),
            mv("author_is_blocked"@, JsonValue::Bool(self.author_is_blocked)),
            mv("author_patreon_flair"@, opt_bool_value(self.author_patreon_flair)),
            mv("author_premium"@, opt_bool_value(self.author_premium)),
        ]
    }

    /// Writes the members that stand for the fields from `all_awardings` to `author_premium`.
    pub fn encode_members_a(&self) -> (members: Vec<Member>)
        ensures
            members_are(members@, self.encoded_members_a()),
    {
        let mut members: Vec<Member> = Vec::new();
        members.push(member("all_awardings", encode_values(&self.all_awardings)));
        members.push(member("approved", encode_opt_bool(self.approved)));
        members.push(member("approved_at_utc", encode_opt_number(&self.approved_at_utc)));
        members.push(member("approved_by", encode_opt_str(&self.approved_by)));
        members.push(member("archived", Json::Bool(self.archived)));
        members.push(member("associated_award", encode_opt_json(&self.associated_award)));
        members.push(member("author", encode_str(self.author.as_str())));
        members.push(member("author_flair_background_color", encode_opt_json(&self.author_flair_background_color)));
        members.push(member("author_flair_css_class", encode_opt_json(&self.author_flair_css_class)));
        members.push(member("author_flair_richtext", encode_opt_json(&self.author_flair_richtext)));
        members.push(member("author_flair_text", encode_opt_str(&self.author_flair_text)));
        members.push(member("author_flair_text_color", encode_opt_json(&self.author_flair_text_color)));
        members.push(member("author_flair_type", encode_opt_str(&self.author_flair_type)));
        members.push(member("author_flair_template_id", encode_opt_str(&self.author_flair_template_id)));
        members.push(member("author_fullname", encode_opt_fullname(&self.author_fullname)));
        members.push(member("author_is_blocked", Json::Bool(self.author_is_blocked)));
        members.push(member("author_patreon_flair", encode_opt_bool(self.author_patreon_flair)));
        members.push(member("author_premium", encode_opt_bool(self.author_premium)));
        members
    }

    /// The members that stand for the fields from `awarders` to `edited`.
    pub open spec fn encoded_members_b(&self) -> Seq<MemberValue> {
        seq![
            mv("awarders"@, JsonValue::Array(jsons_view(self.awarders@))),
            mv("banned_at_utc"@, opt_number_value(self.banned_at_utc)),
            mv("banned_by"@, opt_json_value(self.banned_by)),
            mv("body"@, JsonValue::Str(self.body@)),
            mv("body_html"@, JsonValue::Str(self.body_html@)),
            mv("can_gild"@, JsonValue::Bool(self.can_gild)),
            mv("can_mod_post"@, JsonValue::Bool(self.can_mod_post)),
            mv("collapsed"@, JsonValue::Bool(self.collapsed)),
            mv("collapsed_because_crowd_control"@, opt_json_value(self.collapsed_because_crowd_control)),
            mv("collapsed_reason"@, opt_json_value(self.collapsed_reason)),
            mv("collapsed_reason_code"@, opt_json_value(self.collapsed_reason_code)),
            mv("comment_type"@, opt_json_value(self.comment_type)),
            mv("controversiality"@, JsonValue::Number(NumberValue::Int(self.controversiality as int))),
            mv("created"@, JsonValue::Number(number_view(self.created))),
            mv("created_utc"@, JsonValue::Number(number_view(self.created_utc))),
            mv("distinguished"@, self.distinguished.encoded()),
            mv("downs"@, JsonValue::Number(NumberValue::Int(self.downs as int))),
            mv("edited"@, self.edited.encoded()),
        ]
    }

    /// Writes the members that stand for the fields from `awarders` to `edited`.
    pub fn encode_members_b(&self) -> (members: Vec<Member>)
        ensures
            members_are(members@, self.encoded_members_b()),
    {
        let mut members: Vec<Member> = Vec::new();
        members.push(member("awarders", encode_values(&self.awarders)));
        members.push(member("banned_at_utc", encode_opt_number(&self.banned_at_utc)));
        members.push(member("banned_by", encode_opt_json(&self.banned_by)));
        members.push(member("body", encode_str(self.body.as_str())));
        members.push(member("body_html", encode_str(self.body_html.as_str())));
        members.push(member("can_gild", Json::Bool(self.can_gild)));
        members.push(member("can_mod_post", Json::Bool(self.can_mod_post)));
        members.push(member("collapsed", Json::Bool(self.collapsed)));
        members.push(member("collapsed_because_crowd_control", encode_opt_json(&self.collapsed_because_crowd_control)));
        members.push(member("collapsed_reason", encode_opt_json(&self.collapsed_reason)));
        members.push(member("collapsed_reason_code", encode_opt_json(&self.collapsed_reason_code)));
        members.push(member("comment_type", encode_opt_json(&self.comment_type)));
        members.push(member("controversiality", encode_i32(self.controversiality)));
        members.push(member("created", encode_number(&self.created)));
        members.push(member("created_utc", encode_number(&self.created_utc)));
        members.push(member("distinguished", self.distinguished.encode()));
        members.push(member("downs", encode_i32(self.downs)));
        members.push(member("edited", self.edited.encode()));
        members
    }

    /// The members that stand for the fields from `gilded` to `removal_reason`.
    pub open spec fn encoded_members_c(&self) -> Seq<MemberValue> {
        seq![
            mv("gilded"@, JsonValue::Number(NumberValue::Int(self.gilded as int))),
            mv("gildings"@, self.gildings@),
            mv("id"@, JsonValue::Str(self.id@)),
            mv("ignore_reports"@, opt_bool_value(self.ignore_reports)),
            mv("is_submitter"@, JsonValue::Bool(self.is_submitter)),
            mv("likes"@, opt_json_value(self.likes)),
            mv("link_id"@, JsonValue::Str(self.link_id@)),
            mv("locked"@, JsonValue::Bool(self.locked)),
            mv("mod_note"@, opt_json_value(self.mod_note)),
            mv("mod_reason_by"@, opt_json_value(self.mod_reason_by)),
            mv("mod_reason_title"@, opt_json_value(self.mod_reason_title)),
            mv("mod_reports"@, moderator_reports_encoded(self.mod_reports@)),
            mv("name"@, JsonValue::Str(self.name@)),
            mv("no_follow"@, JsonValue::Bool(self.no_follow)),
            mv("num_reports"@, opt_i32_value(self.num_reports)),
            mv("parent_id"@, JsonValue::Str(self.parent_id@)),
            mv("permalink"@, JsonValue::Str(self.permalink@)),
            mv("removal_reason"@, opt_json_value(self.removal_reason)),
        ]
    }

    /// Writes the members that stand for the fields from `gilded` to `removal_reason`.
    pub fn encode_members_c(&self) -> (members: Vec<Member>)
        ensures
            members_are(members@, self.encoded_members_c()),
    {
        let mut members: Vec<Member> = Vec::new();
        members.push(member("gilded", encode_i32(self.gilded)));
        members.push(member("gildings", self.gildings.clone()));
        members.push(member("id", encode_str(self.id.as_str())));
        members.push(member("ignore_reports", encode_opt_bool(self.ignore_reports)));
        members.push(member("is_submitter", Json::Bool(self.is_submitter)));
        members.push(member("likes", encode_opt_json(&self.likes)));
        members.push(member("link_id", encode_str(self.link_id.full())));
        members.push(member("locked", Json::Bool(self.locked)));
        members.push(member("mod_note", encode_opt_json(&self.mod_note)));
        members.push(member("mod_reason_by", encode_opt_json(&self.mod_reason_by)));
        members.push(member("mod_reason_title", encode_opt_json(&self.mod_reason_title)));
        members.push(member("mod_reports", encode_moderator_reports(&self.mod_reports)));
        members.push(member("name", encode_str(self.name.full())));
        members.push(member("no_follow", Json::Bool(self.no_follow)));
        members.push(member("num_reports", encode_opt_i32(self.num_reports)));
        members.push(member("parent_id", encode_str(self.parent_id.full())));
        members.push(member("permalink", encode_str(self.permalink.as_str())));
        members.push(member("removal_reason", encode_opt_json(&self.removal_reason)));
        members
    }

    /// The members that stand for the fields from `removed` to `user_reports`.
    pub open spec fn encoded_members_d(&self) -> Seq<MemberValue> {
        seq![
            mv("removed"@, opt_bool_value(self.removed)),
            mv("report_reasons"@, opt_values_value(self.report_reasons)),
            mv("saved"@, JsonValue::Bool(self.saved)),
            mv("score"@, JsonValue::Number(NumberValue::Int(self.score as int))),
            mv("score_hidden"@, JsonValue::Bool(self.score_hidden)),
            mv("send_replies"@, JsonValue::Bool(self.send_replies)),
            mv("spam"@, opt_bool_value(self.spam)),
            mv("stickied"@, JsonValue::Bool(self.stickied)),
            mv("subreddit"@, JsonValue::Str(self.subreddit@)),
            mv("subreddit_id"@, JsonValue::Str(self.subreddit_id@)),
            mv("subreddit_name_prefixed"@, JsonValue::Str(self.subreddit_name_prefixed@)),
            mv("subreddit_type"@, JsonValue::Str(self.subreddit_type@)),
            mv("top_awarded_type"@, opt_json_value(self.top_awarded_type)),
            mv("total_awards_received"@, JsonValue::Number(NumberValue::Int(self.total_awards_received as int))),
            mv("treatment_tags"@, JsonValue::Array(jsons_view(self.treatment_tags@))),
            mv("unrepliable_reason"@, opt_json_value(self.unrepliable_reason)),
            mv("ups"@, JsonValue::Number(NumberValue::Int(self.ups as int))),
            mv("user_reports"@, JsonValue::Array(jsons_view(self.user_reports@))),
        ]
    }

    /// Writes the members that stand for the fields from `removed` to `user_reports`.
    pub fn encode_members_d(&self) -> (members: Vec<Member>)
        ensures
            members_are(members@, self.encoded_members_d()),
    {
        let mut members: Vec<Member> = Vec::new();
        members.push(member("removed", encode_opt_bool(self.removed)));
        members.push(member("report_reasons", encode_opt_values(&self.report_reasons)));
        members.push(member("saved", Json::Bool(self.saved)));
        members.push(member("score", encode_i32(self.score)));
        members.push(member("score_hidden", Json::Bool(self.score_hidden)));
        members.push(member("send_replies", Json::Bool(self.send_replies)));
        members.push(member("spam", encode_opt_bool(self.spam)));
        members.push(member("stickied", Json::Bool(self.stickied)));
        members.push(member("subreddit", encode_str(self.subreddit.as_str())));
        members.push(member("subreddit_id", encode_str(self.subreddit_id.full())));
        members.push(member("subreddit_name_prefixed", encode_str(self.subreddit_name_prefixed.as_str())));
        members.push(member("subreddit_type", encode_str(self.subreddit_type.as_str())));
        members.push(member("top_awarded_type", encode_opt_json(&self.top_awarded_type)));
        members.push(member("total_awards_received", encode_i32(self.total_awards_received)));
        members.push(member("treatment_tags", encode_values(&self.treatment_tags)));
        members.push(member("unrepliable_reason", encode_opt_json(&self.unrepliable_reason)));
        members.push(member("ups", encode_i32(self.ups)));
        members.push(member("user_reports", encode_values(&self.user_reports)));
        members
    }

    /// The members that stand for the fields of a comment, in the order in
    /// which the fields are declared. The body is written as it is held.
    pub open spec fn encoded_members(&self) -> Seq<MemberValue> {
        self.encoded_members_a() + self.encoded_members_b() + self.encoded_members_c() + self.encoded_members_d()
    }

    /// Writes the members that stand for the fields of a comment.
    pub fn encode_members(&self) -> (members: Vec<Member>)
        ensures
            members_are(members@, self.encoded_members()),
    {
        let mut members = self.encode_members_a();
        let mut part = self.encode_members_b();
        members.append(&mut part);
        let mut part = self.encode_members_c();
        members.append(&mut part);
        let mut part = self.encode_members_d();
        members.append(&mut part);
        proof {
            assert(members@.len() == self.encoded_members().len());
            assert forall|i: int| 0 <= i < members@.len() implies (#[trigger] members@[i]).key@
                == self.encoded_members()[i].key && members@[i].value@
                == self.encoded_members()[i].value by {
                let a = self.encoded_members_a();
                let b = self.encoded_members_b();
                let c = self.encoded_members_c();
                if i < a.len() {
                } else if i < a.len() + b.len() {
                    assert(self.encoded_members()[i] == b[i - a.len()]);
                } else if i < a.len() + b.len() + c.len() {
                    assert(self.encoded_members()[i] == c[i - a.len() - b.len()]);
                } else {
                    assert(self.encoded_members()[i] == self.encoded_members_d()[i - a.len()
                        - b.len() - c.len()]);
                }
            }
        }
        members
    }
}

impl ArticleCommentData {
    /// The document that stands for a comment: its fields, its depth and
    /// its replies.
    pub open spec fn encoded(&self) -> JsonValue
        decreases self,
    {
        JsonValue::Object(
            self.common.encoded_members() + seq![
                mv("depth"@, JsonValue::Number(NumberValue::Int(self.depth as int))),
                mv("replies"@, self.replies.encoded()),
            ],
        )
    }

    /// Writes a comment as a document.
    pub fn encode(&self) -> (j: Json)
        ensures
            j@ == self.encoded(),
        decreases self,
    {
        let mut members = self.common.encode_members();
        members.push(member("depth", encode_i32(self.depth)));
        members.push(member("replies", self.replies.encode()));
        object_of(members, Ghost(self.encoded()->Object_0))
    }
}

/// The documents of the children of a listing of comments and markers.
pub open spec fn children_encoded(children: Seq<ArticleCommentOrMoreComments>) -> Seq<JsonValue>
    decreases children,
{
    Seq::new(
        children.len(),
        |i: int|
            if 0 <= i < children.len() {
                children[i].encoded()
            } else {
                JsonValue::Null
            },
    )
}

impl ArticleReplies {
    /// The document that stands for the replies: the empty string for none,
    /// and otherwise the listing wrapped as a thing.
    pub open spec fn encoded(&self) -> JsonValue
        decreases self,
    {
        match self {
            ArticleReplies::Empty => JsonValue::Str(Seq::empty()),
            ArticleReplies::Replies(thing) => JsonValue::Object(
                seq![
                    mv("kind"@, opt_str_value(thing.kind)),
                    mv(
                        "data"@,
                        JsonValue::Object(
                            seq![
                                mv("modhash"@, opt_str_value(thing.data.modhash)),
                                mv("dist"@, opt_i32_value(thing.data.dist)),
                                mv("after"@, opt_fullname_value(thing.data.after)),
                                mv("before"@, opt_fullname_value(thing.data.before)),
                                mv(
                                    "children"@,
                                    JsonValue::Array(children_encoded(thing.data.children@)),
                                ),
                            ],
                        ),
                    ),
                ],
            ),
        }
    }

    /// Writes the replies as a document.
    pub fn encode(&self) -> (j: Json)
        ensures
            j@ == self.encoded(),
        decreases self,
    {
        match self {
            ArticleReplies::Empty => Json::Str(String::new()),
            ArticleReplies::Replies(thing) => {
                let children = encode_children(&thing.data.children);
                let mut listing: Vec<Member> = Vec::new();
                listing.push(member("modhash", encode_opt_str(&thing.data.modhash)));
                listing.push(member("dist", encode_opt_i32(thing.data.dist)));
                listing.push(member("after", encode_opt_fullname(&thing.data.after)));
                listing.push(member("before", encode_opt_fullname(&thing.data.before)));
                listing.push(member("children", children));
                let data = object_of(
                    listing,
                    Ghost(self.encoded()->Object_0[1].value->Object_0),
                );
                let mut envelope: Vec<Member> = Vec::new();
                envelope.push(member("kind", encode_opt_str(&thing.kind)));
                envelope.push(member("data", data));
                object_of(envelope, Ghost(self.encoded()->Object_0))
            },
        }
    }
}

/// Writes the children of a listing of comments and markers as an array.
pub fn encode_children(children: &Vec<ArticleCommentOrMoreComments>) -> (j: Json)
    ensures
        j@ == JsonValue::Array(children_encoded(children@)),
    decreases children,
{
    let mut items: Vec<Json> = Vec::new();
    let mut i: usize = 0;
    while i < children.len()
        invariant
            i <= children.len(),
            items@.len() == i,
            forall|k: int| 0 <= k < i ==> (#[trigger] items@[k])@ == children@[k].encoded(),
        decreases children.len() - i,
    {
        items.push(children[i].encode());
        i = i + 1;
    }
    let j = Json::Array(items);
    proof {
        lemma_array_view(j);
        assert(j@->Array_0 =~= children_encoded(children@));
    }
    j
}

impl ArticleCommentOrMoreComments {
    /// The document that stands for a comment or a marker: its kind, and
    /// under `data` its document.
    pub open spec fn encoded(&self) -> JsonValue
        decreases self,
    {
        match self {
            ArticleCommentOrMoreComments::Comment(comment) => JsonValue::Object(
                seq![mv("kind"@, JsonValue::Str("t1"@)), mv("data"@, comment.encoded())],
            ),
            ArticleCommentOrMoreComments::More(more) => JsonValue::Object(
                seq![mv("kind"@, JsonValue::Str("more"@)), mv("data"@, more.encoded())],
            ),
        }
    }

    /// Writes a comment or a marker as a document.
    pub fn encode(&self) -> (j: Json)
        ensures
            j@ == self.encoded(),
        decreases self,
    {
        let mut members: Vec<Member> = Vec::new();
        match self {
            ArticleCommentOrMoreComments::Comment(comment) => {
                members.push(member("kind", encode_str("t1")));
                members.push(member("data", comment.encode()));
            },
            ArticleCommentOrMoreComments::More(more) => {
                members.push(member("kind", encode_str("more")));
                members.push(member("data", more.encode()));
            },
        }
        object_of(members, Ghost(self.encoded()->Object_0))
    }
}

/// Whether a child is a marker whose fullnames are valid.
pub open spec fn valid_marker(child: ArticleCommentOrMoreComments) -> bool {
    match child {
        ArticleCommentOrMoreComments::More(more) => valid_fullname(more.name@) && valid_fullname(
            more.parent_id@,
        ),
        ArticleCommentOrMoreComments::Comment(_) => false,
    }
}

/// Whether every child is a marker whose fullnames are valid.
pub open spec fn markers_only(children: Seq<ArticleCommentOrMoreComments>) -> bool {
    forall|i: int| 0 <= i < children.len() ==> valid_marker(#[trigger] children[i])
}

/// Whether an optional fullname, where there is one, is valid.
pub open spec fn valid_cursor(cursor: Option<ThingFullname>) -> bool {
    cursor matches Some(name) ==> valid_fullname(name@)
}

/// A marker that was written is read again as the marker that was
/// written.
pub proof fn lemma_marker_child_round_trip(more: MoreCommentData)
    requires
        valid_fullname(more.name@),
        valid_fullname(more.parent_id@),
    ensures
        ArticleCommentOrMoreComments::More(more).agrees(
            ArticleCommentOrMoreComments::More(more).encoded(),
        ),
{
    let members = ArticleCommentOrMoreComments::More(more).encoded()->Object_0;
    reveal_strlit("kind");
    reveal_strlit("data");
    assert(members[0].key == "kind"@ && members[1].key == "data"@);
    assert("kind"@[0] == 'k' && "data"@[0] == 'd');
    lemma_field_at(members, "kind"@, 0);
    lemma_field_at(members, "data"@, 1);
    more.lemma_round_trip();
}

/// No replies are written as the empty string and read again as no
/// replies. A listing whose children are all markers is read again as the
/// same listing: the same kind, cursors and markers, in the same order.
pub proof fn lemma_replies_round_trip(replies: ArticleReplies)
    requires
        replies is Replies ==> markers_only(replies->Replies_0.data.children@),
        replies is Replies ==> valid_cursor(replies->Replies_0.data.after),
        replies is Replies ==> valid_cursor(replies->Replies_0.data.before),
    ensures
        replies.agrees(replies.encoded()),
{
    match replies {
        ArticleReplies::Empty => {},
        ArticleReplies::Replies(thing) => {
            let doc = replies.encoded();
            let envelope = doc->Object_0;
            let data = envelope[1].value;
            let listing = data->Object_0;
            reveal_strlit("kind");
            reveal_strlit("data");
            reveal_strlit("modhash");
            reveal_strlit("dist");
            reveal_strlit("after");
            reveal_strlit("before");
            reveal_strlit("children");
            assert(envelope[0].key == "kind"@ && envelope[1].key == "data"@);
            assert("kind"@[0] == 'k' && "data"@[0] == 'd');
            lemma_field_at(envelope, "kind"@, 0);
            lemma_field_at(envelope, "data"@, 1);
            assert(listing[0].key == "modhash"@ && listing[1].key == "dist"@ && listing[2].key
                == "after"@ && listing[3].key == "before"@ && listing[4].key == "children"@);
            assert("modhash"@.len() == 7 && "dist"@.len() == 4 && "after"@.len() == 5
                && "before"@.len() == 6 && "children"@.len() == 8);
            lemma_field_at(listing, "modhash"@, 0);
            lemma_field_at(listing, "dist"@, 1);
            lemma_field_at(listing, "after"@, 2);
            lemma_field_at(listing, "before"@, 3);
            lemma_field_at(listing, "children"@, 4);
            let children = children_encoded(thing.data.children@);
            assert forall|i: int| 0 <= i < thing.data.children@.len() implies (
            #[trigger] thing.data.children@[i]).agrees(children[i]) by {
                let child = thing.data.children@[i];
                lemma_marker_child_round_trip(child->More_0);
            }
        },
    }
}

} // verus!
