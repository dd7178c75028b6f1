//! The smaller things that the API returns: comments in listings, saved
//! items, messages, live threads, moderators, flairs, removal reasons and
//! the moderation log.

use crate::api::comment::CommonCommentData;
use crate::api::response::BasicThing;
use crate::api::submission::SubmissionData;
use crate::decode::{bool_field, field, int_field, item_field_agrees, item_field_decodes,
    items_agree, items_decode, items_field_agree, items_field_decode, number_field, opt_bool,
    opt_bool_field, opt_fullname, opt_fullname_field, opt_fullname_text, opt_i32, opt_i32_int,
    opt_int_field, opt_str, opt_str_field, opt_text, present, req_bool, req_fullname, req_i32,
    req_item, req_items, req_number, req_str, str_field, text_of, Decode, DecodeError};
use crate::decode::{distinct_keys, fullname_field, has_distinct_keys};
use crate::fullname::ThingFullname;
use crate::json::{lemma_object_view, number_view, Json, JsonValue, MemberValue};
use crate::text::str_eq;
use vstd::prelude::*;

verus! {

/// A comment as the listings of a subreddit or of a user show it, with
/// what they say of the submission that it stands under.
#[derive(Debug, PartialEq)]
pub struct LatestCommentData {
    /// What every kind of comment holds.
    pub common: CommonCommentData,
    /// The author of the submission.
    pub link_author: String,
    /// The permalink of the submission.
    pub link_permalink: String,
    /// The title of the submission.
    pub link_title: String,
    /// The URL of the submission.
    pub link_url: String,
    /// The number of comments under the submission.
    pub num_comments: i32,
    /// Whether the submission is marked as not safe for work.
    pub over_18: bool,
    /// Whether the subreddit is quarantined.
    pub quarantine: bool,
}

impl Decode for LatestCommentData {
    open spec fn decodes(doc: JsonValue) -> bool {
        &&& CommonCommentData::decodes(doc)
        &&& str_field(doc, "link_author"@) is Some
        &&& str_field(doc, "link_permalink"@) is Some
        &&& str_field(doc, "link_title"@) is Some
        &&& str_field(doc, "link_url"@) is Some
        &&& int_field(doc, "num_comments"@, i32::MIN as int, i32::MAX as int) is Some
        &&& bool_field(doc, "over_18"@) is Some
        &&& bool_field(doc, "quarantine"@) is Some
    }

    open spec fn agrees(&self, doc: JsonValue) -> bool {
        &&& self.common.agrees(doc)
        &&& str_field(doc, "link_author"@) == Some(self.link_author@)
        &&& str_field(doc, "link_permalink"@) == Some(self.link_permalink@)
        &&& str_field(doc, "link_title"@) == Some(self.link_title@)
        &&& str_field(doc, "link_url"@) == Some(self.link_url@)
        &&& int_field(doc, "num_comments"@, i32::MIN as int, i32::MAX as int) == Some(
            self.num_comments as int,
        )
        &&& bool_field(doc, "over_18"@) == Some(self.over_18)
        &&& bool_field(doc, "quarantine"@) == Some(self.quarantine)
    }

    fn decode(doc: &Json) -> (r: Result<Self, DecodeError>) {
        let common = CommonCommentData::decode(doc)?;
        let link_author = req_str(doc, "link_author")?;
        let link_permalink = req_str(doc, "link_permalink")?;
        let link_title = req_str(doc, "link_title")?;
        let link_url = req_str(doc, "link_url")?;
        let num_comments = req_i32(doc, "num_comments")?;
        let over_18 = req_bool(doc, "over_18")?;
        let quarantine = req_bool(doc, "quarantine")?;
        Ok(
            LatestCommentData {
                common,
                link_author,
                link_permalink,
                link_title,
                link_url,
                num_comments,
                over_18,
                quarantine,
            },
        )
    }
}

/// A comment that the viewer has just made.
#[derive(Debug, PartialEq)]
pub struct CreatedCommentData {
    /// What every kind of comment holds.
    pub common: CommonCommentData,
    /// The mode of the editor in which it was written.
    pub rte_mode: String,
}

impl Decode for CreatedCommentData {
    open spec fn decodes(doc: JsonValue) -> bool {
        &&& CommonCommentData::decodes(doc)
        &&& str_field(doc, "rte_mode"@) is Some
    }

    open spec fn agrees(&self, doc: JsonValue) -> bool {
        &&& self.common.agrees(doc)
        &&& str_field(doc, "rte_mode"@) == Some(self.rte_mode@)
    }

    fn decode(doc: &Json) -> (r: Result<Self, DecodeError>) {
        let common = CommonCommentData::decode(doc)?;
        let rte_mode = req_str(doc, "rte_mode")?;
        Ok(CreatedCommentData { common, rte_mode })
    }
}

/// A comment that the viewer has made, with what the listing says of the
/// submission that it stands under.
#[derive(Debug, PartialEq)]
pub struct CreatedCommentWithLinkInfoData {
    /// The comment with its link information.
    pub comment: LatestCommentData,
    /// The mode of the editor in which it was written.
    pub rte_mode: String,
}

impl Decode for CreatedCommentWithLinkInfoData {
    open spec fn decodes(doc: JsonValue) -> bool {
        &&& LatestCommentData::decodes(doc)
        &&& str_field(doc, "rte_mode"@) is Some
    }

    open spec fn agrees(&self, doc: JsonValue) -> bool {
        &&& self.comment.agrees(doc)
        &&& str_field(doc, "rte_mode"@) == Some(self.rte_mode@)
    }

    fn decode(doc: &Json) -> (r: Result<Self, DecodeError>) {
        let comment = LatestCommentData::decode(doc)?;
        let rte_mode = req_str(doc, "rte_mode")?;
        Ok(CreatedCommentWithLinkInfoData { comment, rte_mode })
    }
}

/// A saved, upvoted or downvoted item: a submission or a comment. On the
/// wire the kind of the thing tells them apart, `t3` or `t1`.
#[derive(Debug, PartialEq)]
pub enum SavedData {
    /// A submission.
    Submission(SubmissionData),
    /// A comment.
    Comment(LatestCommentData),
}

impl Decode for SavedData {
    open spec fn decodes(doc: JsonValue) -> bool {
        &&& str_field(doc, "kind"@) matches Some(kind)
        &&& if kind == "t3"@ {
            item_field_decodes::<SubmissionData>(doc, "data"@)
        } else if kind == "t1"@ {
            item_field_decodes::<LatestCommentData>(doc, "data"@)
        } else {
            false
        }
    }

    open spec fn agrees(&self, doc: JsonValue) -> bool {
        match self {
            SavedData::Submission(submission) => {
                &&& str_field(doc, "kind"@) == Some("t3"@)
                &&& item_field_agrees(*submission, doc, "data"@)
            },
            SavedData::Comment(comment) => {
                &&& str_field(doc, "kind"@) == Some("t1"@)
                &&& item_field_agrees(*comment, doc, "data"@)
            },
        }
    }

    fn decode(doc: &Json) -> (r: Result<Self, DecodeError>) {
        let kind = req_str(doc, "kind")?;
        if str_eq(kind.as_str(), "t3") {
            let submission = req_item(doc, "data")?;
            Ok(SavedData::Submission(submission))
        } else if str_eq(kind.as_str(), "t1") {
            let comment = req_item(doc, "data")?;
            Ok(SavedData::Comment(comment))
        } else {
            Err(DecodeError)
        }
    }
}

/// A message of the inbox.
#[derive(Debug, PartialEq)]
pub struct InboxData {
    /// The id.
    pub id: String,
    /// The subject.
    pub subject: String,
    /// Whether the message is a reply to a comment.
    pub was_comment: bool,
    /// The author.
    pub author: Option<String>,
    /// The fullname of the message that this one answers.
    pub parent_id: Option<ThingFullname>,
    /// The subreddit, with its prefix.
    pub subreddit_name_prefixed: Option<String>,
    /// Whether the message is unread.
    pub new: bool,
    /// The type of the message; on the wire the member `type`.
    pub message_type: String,
    /// The body.
    pub body: String,
    /// The receiver.
    pub dest: String,
    /// The body as HTML.
    pub body_html: String,
    /// The fullname.
    pub name: ThingFullname,
    /// When the message was made, in local time.
    pub created: serde_json::Number,
    /// When the message was made, in UTC.
    pub created_utc: serde_json::Number,
    /// The path that shows the message in its context.
    pub context: String,
    /// The fullname of the first message of the conversation.
    pub first_message_name: Option<ThingFullname>,
}

impl Decode for InboxData {
    open spec fn decodes(doc: JsonValue) -> bool {
        &&& str_field(doc, "id"@) is Some
        &&& str_field(doc, "subject"@) is Some
        &&& bool_field(doc, "was_comment"@) is Some
        &&& opt_str_field(doc, "author"@) is Some
        &&& opt_fullname_field(doc, "parent_id"@) is Some
        &&& opt_str_field(doc, "subreddit_name_prefixed"@) is Some
        &&& bool_field(doc, "new"@) is Some
        &&& str_field(doc, "type"@) is Some
        &&& str_field(doc, "body"@) is Some
        &&& str_field(doc, "dest"@) is Some
        &&& str_field(doc, "body_html"@) is Some
        &&& fullname_field(doc, "name"@) is Some
        &&& number_field(doc, "created"@) is Some
        &&& number_field(doc, "created_utc"@) is Some
        &&& str_field(doc, "context"@) is Some
        &&& opt_fullname_field(doc, "first_message_name"@) is Some
    }

    open spec fn agrees(&self, doc: JsonValue) -> bool {
        &&& str_field(doc, "id"@) == Some(self.id@)
        &&& str_field(doc, "subject"@) == Some(self.subject@)
        &&& bool_field(doc, "was_comment"@) == Some(self.was_comment)
        &&& opt_str_field(doc, "author"@) == Some(opt_text(self.author))
        &&& opt_fullname_field(doc, "parent_id"@) == Some(opt_fullname_text(self.parent_id))
        &&& opt_str_field(doc, "subreddit_name_prefixed"@) == Some(opt_text(self.subreddit_name_prefixed))
        &&& bool_field(doc, "new"@) == Some(self.new)
        &&& str_field(doc, "type"@) == Some(self.message_type@)
        &&& str_field(doc, "body"@) == Some(self.body@)
        &&& str_field(doc, "dest"@) == Some(self.dest@)
        &&& str_field(doc, "body_html"@) == Some(self.body_html@)
        &&& fullname_field(doc, "name"@) == Some(self.name@)
        &&& number_field(doc, "created"@) == Some(number_view(self.created))
        &&& number_field(doc, "created_utc"@) == Some(number_view(self.created_utc))
        &&& str_field(doc, "context"@) == Some(self.context@)
        &&& opt_fullname_field(doc, "first_message_name"@) == Some(opt_fullname_text(self.first_message_name))
    }

    fn decode(doc: &Json) -> (r: Result<Self, DecodeError>) {
        let id = req_str(doc, "id")?;
        let subject = req_str(doc, "subject")?;
        let was_comment = req_bool(doc, "was_comment")?;
        let author = opt_str(doc, "author")?;
        let parent_id = opt_fullname(doc, "parent_id")?;
        let subreddit_name_prefixed = opt_str(doc, "subreddit_name_prefixed")?;
        let new = req_bool(doc, "new")?;
        let message_type = req_str(doc, "type")?;
        let body = req_str(doc, "body")?;
        let dest = req_str(doc, "dest")?;
        let body_html = req_str(doc, "body_html")?;
        let name = req_fullname(doc, "name")?;
        let created = req_number(doc, "created")?;
        let created_utc = req_number(doc, "created_utc")?;
        let context = req_str(doc, "context")?;
        let first_message_name = opt_fullname(doc, "first_message_name")?;
        Ok(
            InboxData {
                id,
                subject,
                was_comment,
                author,
                parent_id,
                subreddit_name_prefixed,
                new,
                message_type,
                body,
                dest,
                body_html,
                name,
                created,
                created_utc,
                context,
                first_message_name,
            },
        )
    }
}

/// The state that a live thread is in.
#[derive(Debug, Clone, Copy, PartialEq, Eq, Hash, Structural)]
pub enum LiveThreadState {
    /// The thread is live and takes updates.
    Live,
    /// The thread is closed.
    Complete,
}

impl LiveThreadState {
    /// What a document says: the string `live` or `complete`.
    pub open spec fn decoded(doc: JsonValue) -> Option<LiveThreadState> {
        match doc {
            JsonValue::Str(s) => if s == "live"@ {
                Some(LiveThreadState::Live)
            } else if s == "complete"@ {
                Some(LiveThreadState::Complete)
            } else {
                None
            },
            _ => None,
        }
    }
}

impl Decode for LiveThreadState {
    open spec fn decodes(doc: JsonValue) -> bool {
        Self::decoded(doc) is Some
    }

    open spec fn agrees(&self, doc: JsonValue) -> bool {
        Self::decoded(doc) == Some(*self)
    }

    fn decode(doc: &Json) -> (r: Result<Self, DecodeError>) {
        match doc.as_str() {
            Some(s) => if str_eq(s, "live") {
                Ok(LiveThreadState::Live)
            } else if str_eq(s, "complete") {
                Ok(LiveThreadState::Complete)
            } else {
                Err(DecodeError)
            },
            None => Err(DecodeError),
        }
    }
}

/// A live thread.
#[derive(Debug, PartialEq)]
pub struct LiveThreadData {
    /// The number of views.
    pub total_views: Option<i32>,
    /// The description, in Markdown.
    pub description: String,
    /// The description as HTML.
    pub description_html: String,
    /// When the thread was made, in local time.
    pub created: serde_json::Number,
    /// The title.
    pub title: String,
    /// When the thread was made, in UTC.
    pub created_utc: serde_json::Number,
    /// The text of the button of the thread.
    pub button_cta: String,
    /// The URL of the websocket, while the thread is live.
    pub websocket_url: Option<String>,
    /// The fullname of the thread; on the wire the member `name`.
    pub fullname: String,
    /// Whether the thread is an announcement.
    pub is_announcement: bool,
    /// The state.
    pub state: LiveThreadState,
    /// The URL of the announcement.
    pub announcement_url: String,
    /// Whether the thread is marked as not safe for work.
    pub nsfw: bool,
    /// The number of viewers, while the thread is live.
    pub viewer_count: Option<i32>,
    /// How often the thread can be dismissed.
    pub num_times_dismissable: i32,
    /// Whether the number of viewers is fuzzed.
    pub viewer_count_fuzzed: Option<bool>,
    /// The resources as HTML.
    pub resources_html: String,
    /// The id.
    pub id: String,
    /// The resources, in Markdown.
    pub resources: String,
    /// The icon.
    pub icon: String,
}

impl Decode for LiveThreadData {
    open spec fn decodes(doc: JsonValue) -> bool {
        &&& opt_int_field(doc, "total_views"@, i32::MIN as int, i32::MAX as int) is Some
        &&& str_field(doc, "description"@) is Some
        &&& str_field(doc, "description_html"@) is Some
        &&& number_field(doc, "created"@) is Some
        &&& str_field(doc, "title"@) is Some
        &&& number_field(doc, "created_utc"@) is Some
        &&& str_field(doc, "button_cta"@) is Some
        &&& opt_str_field(doc, "websocket_url"@) is Some
        &&& str_field(doc, "name"@) is Some
        &&& bool_field(doc, "is_announcement"@) is Some
        &&& item_field_decodes::<LiveThreadState>(doc, "state"@)
        &&& str_field(doc, "announcement_url"@) is Some
        &&& bool_field(doc, "nsfw"@) is Some
        &&& opt_int_field(doc, "viewer_count"@, i32::MIN as int, i32::MAX as int) is Some
        &&& int_field(doc, "num_times_dismissable"@, i32::MIN as int, i32::MAX as int) is Some
        &&& opt_bool_field(doc, "viewer_count_fuzzed"@) is Some
        &&& str_field(doc, "resources_html"@) is Some
        &&& str_field(doc, "id"@) is Some
        &&& str_field(doc, "resources"@) is Some
        &&& str_field(doc, "icon"@) is Some
    }

    open spec fn agrees(&self, doc: JsonValue) -> bool {
        &&& opt_int_field(doc, "total_views"@, i32::MIN as int, i32::MAX as int) == Some(opt_i32_int(self.total_views))
        &&& str_field(doc, "description"@) == Some(self.description@)
        &&& str_field(doc, "description_html"@) == Some(self.description_html@)
        &&& number_field(doc, "created"@) == Some(number_view(self.created))
        &&& str_field(doc, "title"@) == Some(self.title@)
        &&& number_field(doc, "created_utc"@) == Some(number_view(self.created_utc))
        &&& str_field(doc, "button_cta"@) == Some(self.button_cta@)
        &&& opt_str_field(doc, "websocket_url"@) == Some(opt_text(self.websocket_url))
        &&& str_field(doc, "name"@) == Some(self.fullname@)
        &&& bool_field(doc, "is_announcement"@) == Some(self.is_announcement)
        &&& item_field_agrees(self.state, doc, "state"@)
        &&& str_field(doc, "announcement_url"@) == Some(self.announcement_url@)
        &&& bool_field(doc, "nsfw"@) == Some(self.nsfw)
        &&& opt_int_field(doc, "viewer_count"@, i32::MIN as int, i32::MAX as int) == Some(opt_i32_int(self.viewer_count))
        &&& int_field(doc, "num_times_dismissable"@, i32::MIN as int, i32::MAX as int) == Some(self.num_times_dismissable as int)
        &&& opt_bool_field(doc, "viewer_count_fuzzed"@) == Some(self.viewer_count_fuzzed)
        &&& str_field(doc, "resources_html"@) == Some(self.resources_html@)
        &&& str_field(doc, "id"@) == Some(self.id@)
        &&& str_field(doc, "resources"@) == Some(self.resources@)
        &&& str_field(doc, "icon"@) == Some(self.icon@)
    }

    fn decode(doc: &Json) -> (r: Result<Self, DecodeError>) {
        let total_views = opt_i32(doc, "total_views")?;
        let description = req_str(doc, "description")?;
        let description_html = req_str(doc, "description_html")?;
        let created = req_number(doc, "created")?;
        let title = req_str(doc, "title")?;
        let created_utc = req_number(doc, "created_utc")?;
        let button_cta = req_str(doc, "button_cta")?;
        let websocket_url = opt_str(doc, "websocket_url")?;
        let fullname = req_str(doc, "name")?;
        let is_announcement = req_bool(doc, "is_announcement")?;
        let state = req_item(doc, "state")?;
        let announcement_url = req_str(doc, "announcement_url")?;
        let nsfw = req_bool(doc, "nsfw")?;
        let viewer_count = opt_i32(doc, "viewer_count")?;
        let num_times_dismissable = req_i32(doc, "num_times_dismissable")?;
        let viewer_count_fuzzed = opt_bool(doc, "viewer_count_fuzzed")?;
        let resources_html = req_str(doc, "resources_html")?;
        let id = req_str(doc, "id")?;
        let resources = req_str(doc, "resources")?;
        let icon = req_str(doc, "icon")?;
        Ok(
            LiveThreadData {
                total_views,
                description,
                description_html,
                created,
                title,
                created_utc,
                button_cta,
                websocket_url,
                fullname,
                is_announcement,
                state,
                announcement_url,
                nsfw,
                viewer_count,
                num_times_dismissable,
                viewer_count_fuzzed,
                resources_html,
                id,
                resources,
                icon,
            },
        )
    }
}

/// What the API says of a live thread that was just made.
#[derive(Debug, PartialEq)]
pub struct LiveThreadCreated {
    /// The id of the live thread.
    pub id: String,
}

impl Decode for LiveThreadCreated {
    open spec fn decodes(doc: JsonValue) -> bool {
        str_field(doc, "id"@) is Some
    }

    open spec fn agrees(&self, doc: JsonValue) -> bool {
        str_field(doc, "id"@) == Some(self.id@)
    }

    fn decode(doc: &Json) -> (r: Result<Self, DecodeError>) {
        let id = req_str(doc, "id")?;
        Ok(LiveThreadCreated { id })
    }
}

/// An update within a live thread.
#[derive(Debug, PartialEq)]
pub struct LiveUpdateData {
    /// The body, in Markdown.
    pub body: String,
    /// The name of the update.
    pub name: String,
    /// The author.
    pub author: String,
    /// When the update was posted, in local time.
    pub created: serde_json::Number,
    /// When the update was posted, in UTC.
    pub created_utc: serde_json::Number,
    /// The body as HTML.
    pub body_html: String,
    /// Whether the update was stricken.
    pub stricken: bool,
    /// The id.
    pub id: String,
}

impl Decode for LiveUpdateData {
    open spec fn decodes(doc: JsonValue) -> bool {
        &&& str_field(doc, "body"@) is Some
        &&& str_field(doc, "name"@) is Some
        &&& str_field(doc, "author"@) is Some
        &&& number_field(doc, "created"@) is Some
        &&& number_field(doc, "created_utc"@) is Some
        &&& str_field(doc, "body_html"@) is Some
        &&& bool_field(doc, "stricken"@) is Some
        &&& str_field(doc, "id"@) is Some
    }

    open spec fn agrees(&self, doc: JsonValue) -> bool {
        &&& str_field(doc, "body"@) == Some(self.body@)
        &&& str_field(doc, "name"@) == Some(self.name@)
        &&& str_field(doc, "author"@) == Some(self.author@)
        &&& number_field(doc, "created"@) == Some(number_view(self.created))
        &&& number_field(doc, "created_utc"@) == Some(number_view(self.created_utc))
        &&& str_field(doc, "body_html"@) == Some(self.body_html@)
        &&& bool_field(doc, "stricken"@) == Some(self.stricken)
        &&& str_field(doc, "id"@) == Some(self.id@)
    }

    fn decode(doc: &Json) -> (r: Result<Self, DecodeError>) {
        let body = req_str(doc, "body")?;
        let name = req_str(doc, "name")?;
        let author = req_str(doc, "author")?;
        let created = req_number(doc, "created")?;
        let created_utc = req_number(doc, "created_utc")?;
        let body_html = req_str(doc, "body_html")?;
        let stricken = req_bool(doc, "stricken")?;
        let id = req_str(doc, "id")?;
        Ok(LiveUpdateData { body, name, author, created, created_utc, body_html, stricken, id })
    }
}

/// A text, read from a JSON string.
#[derive(Debug, PartialEq)]
pub struct Text {
    /// The text.
    pub text: String,
}

impl Decode for Text {
    open spec fn decodes(doc: JsonValue) -> bool {
        text_of(doc) is Some
    }

    open spec fn agrees(&self, doc: JsonValue) -> bool {
        text_of(doc) == Some(self.text@)
    }

    fn decode(doc: &Json) -> (r: Result<Self, DecodeError>) {
        match doc.as_str() {
            Some(s) => Ok(Text { text: s.to_owned() }),
            None => Err(DecodeError),
        }
    }
}

/// A moderator of a subreddit.
#[derive(Debug, PartialEq)]
pub struct ModeratorData {
    /// The id of the moderator.
    pub id: String,
    /// The name of the moderator.
    pub name: String,
    /// The text of the flair.
    pub author_flair_text: Option<String>,
    /// What the moderator may do.
    pub mod_permissions: Option<Vec<Text>>,
}

impl Decode for ModeratorData {
    open spec fn decodes(doc: JsonValue) -> bool {
        &&& str_field(doc, "id"@) is Some
        &&& str_field(doc, "name"@) is Some
        &&& opt_str_field(doc, "author_flair_text"@) is Some
        &&& present(doc, "mod_permissions"@) matches Some(v) ==> items_decode::<Text>(v)
    }

    open spec fn agrees(&self, doc: JsonValue) -> bool {
        &&& str_field(doc, "id"@) == Some(self.id@)
        &&& str_field(doc, "name"@) == Some(self.name@)
        &&& opt_str_field(doc, "author_flair_text"@) == Some(opt_text(self.author_flair_text))
        &&& match present(doc, "mod_permissions"@) {
            Some(v) => self.mod_permissions is Some && items_agree(self.mod_permissions->0@, v),
            None => self.mod_permissions is None,
        }
    }

    fn decode(doc: &Json) -> (r: Result<Self, DecodeError>) {
        let id = req_str(doc, "id")?;
        let name = req_str(doc, "name")?;
        let author_flair_text = opt_str(doc, "author_flair_text")?;
        let mod_permissions = match doc.get_present("mod_permissions") {
            Some(v) => Some(crate::decode::decode_items(v)?),
            None => None,
        };
        Ok(ModeratorData { id, name, author_flair_text, mod_permissions })
    }
}

/// The id of a flair, which should be a GUID.
#[derive(Debug, PartialEq, Eq, Hash)]
pub struct FlairId(pub String);

impl Clone for FlairId {
    fn clone(&self) -> (r: Self)
        ensures
            r == *self,
    {
        FlairId(self.0.clone())
    }
}

impl FlairId {
    /// The id as a text.
    pub fn as_str(&self) -> (r: &str)
        ensures
            r@ == self.0@,
    {
        self.0.as_str()
    }
}

impl Decode for FlairId {
    open spec fn decodes(doc: JsonValue) -> bool {
        text_of(doc) is Some
    }

    open spec fn agrees(&self, doc: JsonValue) -> bool {
        text_of(doc) == Some(self.0@)
    }

    fn decode(doc: &Json) -> (r: Result<Self, DecodeError>) {
        match doc.as_str() {
            Some(s) => Ok(FlairId(s.to_owned())),
            None => Err(DecodeError),
        }
    }
}

/// A flair that can be chosen.
#[derive(Debug, PartialEq)]
pub struct FlairChoice {
    /// The CSS class.
    pub flair_css_class: String,
    /// The position.
    pub flair_position: String,
    /// The id of the template.
    pub flair_template_id: FlairId,
    /// The text.
    pub flair_text: String,
    /// Whether the text can be edited.
    pub flair_text_editable: bool,
}

impl Decode for FlairChoice {
    open spec fn decodes(doc: JsonValue) -> bool {
        &&& str_field(doc, "flair_css_class"@) is Some
        &&& str_field(doc, "flair_position"@) is Some
        &&& item_field_decodes::<FlairId>(doc, "flair_template_id"@)
        &&& str_field(doc, "flair_text"@) is Some
        &&& bool_field(doc, "flair_text_editable"@) is Some
    }

    open spec fn agrees(&self, doc: JsonValue) -> bool {
        &&& str_field(doc, "flair_css_class"@) == Some(self.flair_css_class@)
        &&& str_field(doc, "flair_position"@) == Some(self.flair_position@)
        &&& item_field_agrees(self.flair_template_id, doc, "flair_template_id"@)
        &&& str_field(doc, "flair_text"@) == Some(self.flair_text@)
        &&& bool_field(doc, "flair_text_editable"@) == Some(self.flair_text_editable)
    }

    fn decode(doc: &Json) -> (r: Result<Self, DecodeError>) {
        let flair_css_class = req_str(doc, "flair_css_class")?;
        let flair_position = req_str(doc, "flair_position")?;
        let flair_template_id = req_item(doc, "flair_template_id")?;
        let flair_text = req_str(doc, "flair_text")?;
        let flair_text_editable = req_bool(doc, "flair_text_editable")?;
        Ok(
            FlairChoice {
                flair_css_class,
                flair_position,
                flair_template_id,
                flair_text,
                flair_text_editable,
            },
        )
    }
}

/// The flair that is chosen now; the template and the text are absent
/// where none is.
#[derive(Debug, PartialEq)]
pub struct FlairCurrentChoice {
    /// The CSS class.
    pub flair_css_class: String,
    /// The position.
    pub flair_position: String,
    /// The id of the template.
    pub flair_template_id: Option<FlairId>,
    /// The text.
    pub flair_text: Option<String>,
}

impl Decode for FlairCurrentChoice {
    open spec fn decodes(doc: JsonValue) -> bool {
        &&& str_field(doc, "flair_css_class"@) is Some
        &&& str_field(doc, "flair_position"@) is Some
        &&& crate::decode::opt_item_field_decodes::<FlairId>(doc, "flair_template_id"@)
        &&& opt_str_field(doc, "flair_text"@) is Some
    }

    open spec fn agrees(&self, doc: JsonValue) -> bool {
        &&& str_field(doc, "flair_css_class"@) == Some(self.flair_css_class@)
        &&& str_field(doc, "flair_position"@) == Some(self.flair_position@)
        &&& crate::decode::opt_item_field_agrees(self.flair_template_id, doc, "flair_template_id"@)
        &&& opt_str_field(doc, "flair_text"@) == Some(opt_text(self.flair_text))
    }

    fn decode(doc: &Json) -> (r: Result<Self, DecodeError>) {
        let flair_css_class = req_str(doc, "flair_css_class")?;
        let flair_position = req_str(doc, "flair_position")?;
        let flair_template_id = crate::decode::opt_item(doc, "flair_template_id")?;
        let flair_text = opt_str(doc, "flair_text")?;
        Ok(FlairCurrentChoice { flair_css_class, flair_position, flair_template_id, flair_text })
    }
}

/// The flairs that can be chosen, and the one that is.
#[derive(Debug, PartialEq)]
pub struct FlairSelection {
    /// The flairs on offer.
    pub choices: Vec<FlairChoice>,
    /// The flair chosen now.
    pub current: FlairCurrentChoice,
}

impl Decode for FlairSelection {
    open spec fn decodes(doc: JsonValue) -> bool {
        &&& items_field_decode::<FlairChoice>(doc, "choices"@)
        &&& item_field_decodes::<FlairCurrentChoice>(doc, "current"@)
    }

    open spec fn agrees(&self, doc: JsonValue) -> bool {
        &&& items_field_agree(self.choices@, doc, "choices"@)
        &&& item_field_agrees(self.current, doc, "current"@)
    }

    fn decode(doc: &Json) -> (r: Result<Self, DecodeError>) {
        let choices = req_items(doc, "choices")?;
        let current = req_item(doc, "current")?;
        Ok(FlairSelection { choices, current })
    }
}

/// A reason for which a moderator removes a thing.
#[derive(Debug, PartialEq)]
pub struct RemovalReason {
    /// The message for the author.
    pub message: String,
    /// The id of the reason.
    pub id: String,
    /// The title that moderators see.
    pub title: String,
}

impl Decode for RemovalReason {
    open spec fn decodes(doc: JsonValue) -> bool {
        &&& str_field(doc, "message"@) is Some
        &&& str_field(doc, "id"@) is Some
        &&& str_field(doc, "title"@) is Some
    }

    open spec fn agrees(&self, doc: JsonValue) -> bool {
        &&& str_field(doc, "message"@) == Some(self.message@)
        &&& str_field(doc, "id"@) == Some(self.id@)
        &&& str_field(doc, "title"@) == Some(self.title@)
    }

    fn decode(doc: &Json) -> (r: Result<Self, DecodeError>) {
        let message = req_str(doc, "message")?;
        let id = req_str(doc, "id")?;
        let title = req_str(doc, "title")?;
        Ok(RemovalReason { message, id, title })
    }
}

/// One entry of the removal reasons of a subreddit: the key under which
/// the reason stands, which is its id, and the reason.
#[derive(Debug, PartialEq)]
pub struct RemovalReasonEntry {
    /// The key of the entry.
    pub key: String,
    /// The reason.
    pub reason: RemovalReason,
}

/// The removal reasons of a subreddit: a map from the id of a reason to the
/// reason, kept in the order of the document, and the order in which the
/// site shows the reasons. No key occurs twice in the map.
#[derive(Debug, PartialEq)]
pub struct SubredditRemovalReasons {
    /// The reasons; on the wire an object keyed by the id of each reason.
    pub data: Vec<RemovalReasonEntry>,
    /// The ids of the reasons in the order in which they are shown.
    pub order: Vec<Text>,
}

/// Whether a document is an object of which no two members have the same
/// key, and whose values are removal reasons.
pub open spec fn reasons_decode(doc: JsonValue) -> bool {
    &&& doc matches JsonValue::Object(members)
    &&& distinct_keys(members)
    &&& forall|i: int|
        0 <= i < members.len() ==> RemovalReason::decodes((#[trigger] members[i]).value)
}

/// Whether a list of entries holds the members of an object, in order.
pub open spec fn reasons_agree(reasons: Seq<RemovalReasonEntry>, doc: JsonValue) -> bool {
    &&& doc matches JsonValue::Object(members)
    &&& distinct_keys(members)
    &&& members.len() == reasons.len()
    &&& forall|i: int|
        0 <= i < reasons.len() ==> (#[trigger] reasons[i]).key@ == members[i].key
            && reasons[i].reason.agrees(members[i].value)
}

fn decode_reasons(doc: &Json) -> (r: Result<Vec<RemovalReasonEntry>, DecodeError>)
    ensures
        r is Ok <==> reasons_decode(doc@),
        r matches Ok(reasons) ==> reasons_agree(reasons@, doc@),
{
    let members = match doc {
        Json::Object(members) => members,
        _ => {
            return Err(DecodeError);
        },
    };
    proof {
        lemma_object_view(*doc);
    }
    if !has_distinct_keys(doc) {
        return Err(DecodeError);
    }
    let ghost models = doc@->Object_0;
    let mut reasons: Vec<RemovalReasonEntry> = Vec::new();
    let mut i: usize = 0;
    while i < members.len()
        invariant
            i <= members.len(),
            reasons@.len() == i,
            doc@ == JsonValue::Object(models),
            distinct_keys(models),
            models.len() == members@.len(),
            forall|k: int|
                0 <= k < members@.len() ==> (#[trigger] models[k]) == (MemberValue {
                    key: members@[k].key@,
                    value: members@[k].value@,
                }),
            forall|k: int| 0 <= k < i ==> RemovalReason::decodes((#[trigger] models[k]).value),
            forall|k: int|
                0 <= k < i ==> (#[trigger] reasons@[k]).key@ == models[k].key
                    && reasons@[k].reason.agrees(models[k].value),
        decreases members.len() - i,
    {
        match RemovalReason::decode(&members[i].value) {
            Ok(reason) => {
                reasons.push(RemovalReasonEntry { key: members[i].key.clone(), reason });
            },
            Err(e) => {
                assert(!RemovalReason::decodes(models[i as int].value));
                assert(doc@->Object_0[i as int] == models[i as int]);
                return Err(e);
            },
        }
        i = i + 1;
    }
    Ok(reasons)
}

impl SubredditRemovalReasons {
    /// Whether no key occurs twice among the reasons.
    pub open spec fn well_formed(&self) -> bool {
        forall|i: int, j: int|
            0 <= i < j < self.data@.len() ==> (#[trigger] self.data@[i]).key@ != (
            #[trigger] self.data@[j]).key@
    }

    /// Reasons that hold what a document says are well formed.
    pub proof fn lemma_agrees_well_formed(&self, doc: JsonValue)
        requires
            self.agrees(doc),
        ensures
            self.well_formed(),
    {
        let members = field(doc, "data"@)->0->Object_0;
        assert forall|i: int, j: int| 0 <= i < j < self.data@.len() implies (
        #[trigger] self.data@[i]).key@ != (#[trigger] self.data@[j]).key@ by {
            assert(members[i].key != members[j].key);
        }
    }
}

impl Decode for SubredditRemovalReasons {
    open spec fn decodes(doc: JsonValue) -> bool {
        &&& field(doc, "data"@) matches Some(v) && reasons_decode(v)
        &&& items_field_decode::<Text>(doc, "order"@)
    }

    open spec fn agrees(&self, doc: JsonValue) -> bool {
        &&& field(doc, "data"@) matches Some(v) && reasons_agree(self.data@, v)
        &&& items_field_agree(self.order@, doc, "order"@)
    }

    fn decode(doc: &Json) -> (r: Result<Self, DecodeError>) {
        let data = match doc.get("data") {
            Some(v) => decode_reasons(v)?,
            None => {
                return Err(DecodeError);
            },
        };
        let order = req_items(doc, "order")?;
        Ok(SubredditRemovalReasons { data, order })
    }
}

/// The kinds of action in the moderation log.
#[derive(Debug, Clone, Copy, PartialEq, Eq, Structural)]
pub enum ModActionType {
    /// On the wire `banuser`.
    BanUser,
    /// On the wire `unbanuser`.
    UnbanUser,
    /// On the wire `spamlink`.
    SpamLink,
    /// On the wire `removelink`.
    RemoveLink,
    /// On the wire `approvelink`.
    ApproveLink,
    /// On the wire `spamcomment`.
    SpamComment,
    /// On the wire `removecomment`.
    RemoveComment,
    /// On the wire `approvecomment`.
    ApproveComment,
    /// On the wire `addmoderator`.
    AddModerator,
    /// On the wire `showcomment`.
    ShowComment,
    /// On the wire `invitemoderator`.
    InviteModerator,
    /// On the wire `uninvitemoderator`.
    UninviteModerator,
    /// On the wire `acceptmoderatorinvite`.
    AcceptModeratorInvite,
    /// On the wire `removemoderator`.
    RemoveModerator,
    /// On the wire `addcontributor`.
    AddContributor,
    /// On the wire `removecontributor`.
    RemoveContributor,
    /// On the wire `editsettings`.
    EditSettings,
    /// On the wire `editflair`.
    EditFlair,
    /// On the wire `distinguish`.
    Distinguish,
    /// On the wire `marknsfw`.
    MarkNsfw,
    /// On the wire `wikibanned`.
    WikiBanned,
    /// On the wire `wikicontributor`.
    WikiContributor,
    /// On the wire `wikiunbanned`.
    WikiUnbanned,
    /// On the wire `wikipagelisted`.
    WikiPageListed,
    /// On the wire `removewikicontributor`.
    RemoveWikiContributor,
    /// On the wire `wikirevise`.
    WikiRevise,
    /// On the wire `wikipermlevel`.
    WikiPermLevel,
    /// On the wire `ignorereports`.
    IgnoreReports,
    /// On the wire `unignorereports`.
    UnignoreReports,
    /// On the wire `setpermissions`.
    SetPermissions,
    /// On the wire `setsuggestedsort`.
    SetSuggestedSort,
    /// On the wire `sticky`.
    Sticky,
    /// On the wire `unsticky`.
    Unsticky,
    /// On the wire `setcontestmode`.
    SetContestMode,
    /// On the wire `unsetcontestmode`.
    UnsetContestMode,
    /// On the wire `lock`.
    Lock,
    /// On the wire `unlock`.
    Unlock,
    /// On the wire `muteuser`.
    MuteUser,
    /// On the wire `unmuteuser`.
    UnmuteUser,
    /// On the wire `createrule`.
    CreateRule,
    /// On the wire `editrule`.
    EditRule,
    /// On the wire `reorderrules`.
    ReorderRules,
    /// On the wire `deleterule`.
    DeleteRule,
    /// On the wire `spoiler`.
    Spoiler,
    /// On the wire `unspoiler`.
    Unspoiler,
    /// On the wire `modmail_enrollment`.
    ModmailEnrollment,
    /// On the wire `community_status`.
    CommunityStatus,
    /// On the wire `community_styling`.
    CommunityStyling,
    /// On the wire `community_welcome_page`.
    CommunityWelcomePage,
    /// On the wire `community_widgets`.
    CommunityWidgets,
    /// On the wire `markoriginalcontent`.
    MarkOriginalContent,
    /// On the wire `collections`.
    Collections,
    /// On the wire `events`.
    Events,
    /// On the wire `hidden_award`.
    HiddenAward,
    /// On the wire `add_community_topics`.
    AddCommunityTopics,
    /// On the wire `remove_community_topics`.
    RemoveCommunityTopics,
    /// On the wire `create_scheduled_post`.
    CreateScheduledPost,
    /// On the wire `edit_scheduled_post`.
    EditScheduledPost,
    /// On the wire `delete_scheduled_post`.
    DeleteScheduledPost,
    /// On the wire `submit_scheduled_post`.
    SubmitScheduledPost,
    /// On the wire `edit_comment_requirements`.
    EditCommentRequirements,
    /// On the wire `edit_post_requirements`.
    EditPostRequirements,
    /// On the wire `invitesubscriber`.
    InviteSubscriber,
    /// On the wire `submit_content_rating_survey`.
    SubmitContentRatingSurvey,
    /// On the wire `adjust_post_crowd_control_level`.
    AdjustPostCrowdControlLevel,
    /// On the wire `enable_post_crowd_control_filter`.
    EnablePostCrowdControlFilter,
    /// On the wire `disable_post_crowd_control_filter`.
    DisablePostCrowdControlFilter,
    /// On the wire `deleteoverriddenclassification`.
    DeleteOverriddenClassification,
    /// On the wire `overrideclassification`.
    OverrideClassification,
    /// On the wire `reordermoderators`.
    ReorderModerators,
    /// On the wire `request_assistance`.
    RequestAssistance,
    /// On the wire `snoozereports`.
    SnoozeReports,
    /// On the wire `unsnoozereports`.
    UnsnoozeReports,
    /// On the wire `addnote`.
    AddNote,
    /// On the wire `deletenote`.
    DeleteNote,
    /// On the wire `addremovalreason`.
    AddRemovalReason,
    /// On the wire `createremovalreason`.
    CreateRemovalReason,
    /// On the wire `updateremovalreason`.
    UpdateRemovalReason,
    /// On the wire `deleteremovalreason`.
    DeleteRemovalReason,
    /// On the wire `reorderremovalreason`.
    ReorderRemovalReason,
    /// On the wire `dev_platform_app_changed`.
    DevPlatformAppChanged,
    /// On the wire `dev_platform_app_disabled`.
    DevPlatformAppDisabled,
    /// On the wire `dev_platform_app_enabled`.
    DevPlatformAppEnabled,
    /// On the wire `dev_platform_app_installed`.
    DevPlatformAppInstalled,
    /// On the wire `dev_platform_app_uninstalled`.
    DevPlatformAppUninstalled,
    /// On the wire `edit_saved_response`.
    EditSavedResponse,
    /// On the wire `chat_approve_message`.
    ChatApproveMessage,
    /// On the wire `chat_remove_message`.
    ChatRemoveMessage,
    /// On the wire `chat_ban_user`.
    ChatBanUser,
    /// On the wire `chat_unban_user`.
    ChatUnbanUser,
    /// On the wire `chat_invite_host`.
    ChatInviteHost,
    /// On the wire `chat_remove_host`.
    ChatRemoveHost,
    /// On the wire `approve_award`.
    ApproveAward,
}

impl ModActionType {
    /// The name of the action on the wire: its name in lower case, or for
    /// the newer actions a name of its own with underscores.
    pub open spec fn wire_name(self) -> Seq<char> {
        match self {
            ModActionType::BanUser => "banuser"@,
            ModActionType::UnbanUser => "unbanuser"@,
            ModActionType::SpamLink => "spamlink"@,
            ModActionType::RemoveLink => "removelink"@,
            ModActionType::ApproveLink => "approvelink"@,
            ModActionType::SpamComment => "spamcomment"@,
            ModActionType::RemoveComment => "removecomment"@,
            ModActionType::ApproveComment => "approvecomment"@,
            ModActionType::AddModerator => "addmoderator"@,
            ModActionType::ShowComment => "showcomment"@,
            ModActionType::InviteModerator => "invitemoderator"@,
            ModActionType::UninviteModerator => "uninvitemoderator"@,
            ModActionType::AcceptModeratorInvite => "acceptmoderatorinvite"@,
            ModActionType::RemoveModerator => "removemoderator"@,
            ModActionType::AddContributor => "addcontributor"@,
            ModActionType::RemoveContributor => "removecontributor"@,
            ModActionType::EditSettings => "editsettings"@,
            ModActionType::EditFlair => "editflair"@,
            ModActionType::Distinguish => "distinguish"@,
            ModActionType::MarkNsfw => "marknsfw"@,
            ModActionType::WikiBanned => "wikibanned"@,
            ModActionType::WikiContributor => "wikicontributor"@,
            ModActionType::WikiUnbanned => "wikiunbanned"@,
            ModActionType::WikiPageListed => "wikipagelisted"@,
            ModActionType::RemoveWikiContributor => "removewikicontributor"@,
            ModActionType::WikiRevise => "wikirevise"@,
            ModActionType::WikiPermLevel => "wikipermlevel"@,
            ModActionType::IgnoreReports => "ignorereports"@,
            ModActionType::UnignoreReports => "unignorereports"@,
            ModActionType::SetPermissions => "setpermissions"@,
            ModActionType::SetSuggestedSort => "setsuggestedsort"@,
            ModActionType::Sticky => "sticky"@,
            ModActionType::Unsticky => "unsticky"@,
            ModActionType::SetContestMode => "setcontestmode"@,
            ModActionType::UnsetContestMode => "unsetcontestmode"@,
            ModActionType::Lock => "lock"@,
            ModActionType::Unlock => "unlock"@,
            ModActionType::MuteUser => "muteuser"@,
            ModActionType::UnmuteUser => "unmuteuser"@,
            ModActionType::CreateRule => "createrule"@,
            ModActionType::EditRule => "editrule"@,
            ModActionType::ReorderRules => "reorderrules"@,
            ModActionType::DeleteRule => "deleterule"@,
            ModActionType::Spoiler => "spoiler"@,
            ModActionType::Unspoiler => "unspoiler"@,
            ModActionType::ModmailEnrollment => "modmail_enrollment"@,
            ModActionType::CommunityStatus => "community_status"@,
            ModActionType::CommunityStyling => "community_styling"@,
            ModActionType::CommunityWelcomePage => "community_welcome_page"@,
            ModActionType::CommunityWidgets => "community_widgets"@,
            ModActionType::MarkOriginalContent => "markoriginalcontent"@,
            ModActionType::Collections => "collections"@,
            ModActionType::Events => "events"@,
            ModActionType::HiddenAward => "hidden_award"@,
            ModActionType::AddCommunityTopics => "add_community_topics"@,
            ModActionType::RemoveCommunityTopics => "remove_community_topics"@,
            ModActionType::CreateScheduledPost => "create_scheduled_post"@,
            ModActionType::EditScheduledPost => "edit_scheduled_post"@,
            ModActionType::DeleteScheduledPost => "delete_scheduled_post"@,
            ModActionType::SubmitScheduledPost => "submit_scheduled_post"@,
            ModActionType::EditCommentRequirements => "edit_comment_requirements"@,
            ModActionType::EditPostRequirements => "edit_post_requirements"@,
            ModActionType::InviteSubscriber => "invitesubscriber"@,
            ModActionType::SubmitContentRatingSurvey => "submit_content_rating_survey"@,
            ModActionType::AdjustPostCrowdControlLevel => "adjust_post_crowd_control_level"@,
            ModActionType::EnablePostCrowdControlFilter => "enable_post_crowd_control_filter"@,
            ModActionType::DisablePostCrowdControlFilter => "disable_post_crowd_control_filter"@,
            ModActionType::DeleteOverriddenClassification => "deleteoverriddenclassification"@,
            ModActionType::OverrideClassification => "overrideclassification"@,
            ModActionType::ReorderModerators => "reordermoderators"@,
            ModActionType::RequestAssistance => "request_assistance"@,
            ModActionType::SnoozeReports => "snoozereports"@,
            ModActionType::UnsnoozeReports => "unsnoozereports"@,
            ModActionType::AddNote => "addnote"@,
            ModActionType::DeleteNote => "deletenote"@,
            ModActionType::AddRemovalReason => "addremovalreason"@,
            ModActionType::CreateRemovalReason => "createremovalreason"@,
            ModActionType::UpdateRemovalReason => "updateremovalreason"@,
            ModActionType::DeleteRemovalReason => "deleteremovalreason"@,
            ModActionType::ReorderRemovalReason => "reorderremovalreason"@,
            ModActionType::DevPlatformAppChanged => "dev_platform_app_changed"@,
            ModActionType::DevPlatformAppDisabled => "dev_platform_app_disabled"@,
            ModActionType::DevPlatformAppEnabled => "dev_platform_app_enabled"@,
            ModActionType::DevPlatformAppInstalled => "dev_platform_app_installed"@,
            ModActionType::DevPlatformAppUninstalled => "dev_platform_app_uninstalled"@,
            ModActionType::EditSavedResponse => "edit_saved_response"@,
            ModActionType::ChatApproveMessage => "chat_approve_message"@,
            ModActionType::ChatRemoveMessage => "chat_remove_message"@,
            ModActionType::ChatBanUser => "chat_ban_user"@,
            ModActionType::ChatUnbanUser => "chat_unban_user"@,
            ModActionType::ChatInviteHost => "chat_invite_host"@,
            ModActionType::ChatRemoveHost => "chat_remove_host"@,
            ModActionType::ApproveAward => "approve_award"@,
        }
    }

    /// The name of the action on the wire.
    pub fn name(self) -> (r: &'static str)
        ensures
            r@ == self.wire_name(),
    {
        match self {
            ModActionType::BanUser => "banuser",
            ModActionType::UnbanUser => "unbanuser",
            ModActionType::SpamLink => "spamlink",
            ModActionType::RemoveLink => "removelink",
            ModActionType::ApproveLink => "approvelink",
            ModActionType::SpamComment => "spamcomment",
            ModActionType::RemoveComment => "removecomment",
            ModActionType::ApproveComment => "approvecomment",
            ModActionType::AddModerator => "addmoderator",
            ModActionType::ShowComment => "showcomment",
            ModActionType::InviteModerator => "invitemoderator",
            ModActionType::UninviteModerator => "uninvitemoderator",
            ModActionType::AcceptModeratorInvite => "acceptmoderatorinvite",
            ModActionType::RemoveModerator => "removemoderator",
            ModActionType::AddContributor => "addcontributor",
            ModActionType::RemoveContributor => "removecontributor",
            ModActionType::EditSettings => "editsettings",
            ModActionType::EditFlair => "editflair",
            ModActionType::Distinguish => "distinguish",
            ModActionType::MarkNsfw => "marknsfw",
            ModActionType::WikiBanned => "wikibanned",
            ModActionType::WikiContributor => "wikicontributor",
            ModActionType::WikiUnbanned => "wikiunbanned",
            ModActionType::WikiPageListed => "wikipagelisted",
            ModActionType::RemoveWikiContributor => "removewikicontributor",
            ModActionType::WikiRevise => "wikirevise",
            ModActionType::WikiPermLevel => "wikipermlevel",
            ModActionType::IgnoreReports => "ignorereports",
            ModActionType::UnignoreReports => "unignorereports",
            ModActionType::SetPermissions => "setpermissions",
            ModActionType::SetSuggestedSort => "setsuggestedsort",
            ModActionType::Sticky => "sticky",
            ModActionType::Unsticky => "unsticky",
            ModActionType::SetContestMode => "setcontestmode",
            ModActionType::UnsetContestMode => "unsetcontestmode",
            ModActionType::Lock => "lock",
            ModActionType::Unlock => "unlock",
            ModActionType::MuteUser => "muteuser",
            ModActionType::UnmuteUser => "unmuteuser",
            ModActionType::CreateRule => "createrule",
            ModActionType::EditRule => "editrule",
            ModActionType::ReorderRules => "reorderrules",
            ModActionType::DeleteRule => "deleterule",
            ModActionType::Spoiler => "spoiler",
            ModActionType::Unspoiler => "unspoiler",
            ModActionType::ModmailEnrollment => "modmail_enrollment",
            ModActionType::CommunityStatus => "community_status",
            ModActionType::CommunityStyling => "community_styling",
            ModActionType::CommunityWelcomePage => "community_welcome_page",
            ModActionType::CommunityWidgets => "community_widgets",
            ModActionType::MarkOriginalContent => "markoriginalcontent",
            ModActionType::Collections => "collections",
            ModActionType::Events => "events",
            ModActionType::HiddenAward => "hidden_award",
            ModActionType::AddCommunityTopics => "add_community_topics",
            ModActionType::RemoveCommunityTopics => "remove_community_topics",
            ModActionType::CreateScheduledPost => "create_scheduled_post",
            ModActionType::EditScheduledPost => "edit_scheduled_post",
            ModActionType::DeleteScheduledPost => "delete_scheduled_post",
            ModActionType::SubmitScheduledPost => "submit_scheduled_post",
            ModActionType::EditCommentRequirements => "edit_comment_requirements",
            ModActionType::EditPostRequirements => "edit_post_requirements",
            ModActionType::InviteSubscriber => "invitesubscriber",
            ModActionType::SubmitContentRatingSurvey => "submit_content_rating_survey",
            ModActionType::AdjustPostCrowdControlLevel => "adjust_post_crowd_control_level",
            ModActionType::EnablePostCrowdControlFilter => "enable_post_crowd_control_filter",
            ModActionType::DisablePostCrowdControlFilter => "disable_post_crowd_control_filter",
            ModActionType::DeleteOverriddenClassification => "deleteoverriddenclassification",
            ModActionType::OverrideClassification => "overrideclassification",
            ModActionType::ReorderModerators => "reordermoderators",
            ModActionType::RequestAssistance => "request_assistance",
            ModActionType::SnoozeReports => "snoozereports",
            ModActionType::UnsnoozeReports => "unsnoozereports",
            ModActionType::AddNote => "addnote",
            ModActionType::DeleteNote => "deletenote",
            ModActionType::AddRemovalReason => "addremovalreason",
            ModActionType::CreateRemovalReason => "createremovalreason",
            ModActionType::UpdateRemovalReason => "updateremovalreason",
            ModActionType::DeleteRemovalReason => "deleteremovalreason",
            ModActionType::ReorderRemovalReason => "reorderremovalreason",
            ModActionType::DevPlatformAppChanged => "dev_platform_app_changed",
            ModActionType::DevPlatformAppDisabled => "dev_platform_app_disabled",
            ModActionType::DevPlatformAppEnabled => "dev_platform_app_enabled",
            ModActionType::DevPlatformAppInstalled => "dev_platform_app_installed",
            ModActionType::DevPlatformAppUninstalled => "dev_platform_app_uninstalled",
            ModActionType::EditSavedResponse => "edit_saved_response",
            ModActionType::ChatApproveMessage => "chat_approve_message",
            ModActionType::ChatRemoveMessage => "chat_remove_message",
            ModActionType::ChatBanUser => "chat_ban_user",
            ModActionType::ChatUnbanUser => "chat_unban_user",
            ModActionType::ChatInviteHost => "chat_invite_host",
            ModActionType::ChatRemoveHost => "chat_remove_host",
            ModActionType::ApproveAward => "approve_award",
        }
    }

    /// The action with this name on the wire.
    pub fn from_name(name: &str) -> (r: Option<Self>)
        ensures
            r matches Some(action) ==> action.wire_name() == name@,
            r is None ==> forall|action: ModActionType| action.wire_name() != name@,
    {
        if str_eq(name, "banuser") {
            Some(ModActionType::BanUser)
        } else if str_eq(name, "unbanuser") {
            Some(ModActionType::UnbanUser)
        } else if str_eq(name, "spamlink") {
            Some(ModActionType::SpamLink)
        } else if str_eq(name, "removelink") {
            Some(ModActionType::RemoveLink)
        } else if str_eq(name, "approvelink") {
            Some(ModActionType::ApproveLink)
        } else if str_eq(name, "spamcomment") {
            Some(ModActionType::SpamComment)
        } else if str_eq(name, "removecomment") {
            Some(ModActionType::RemoveComment)
        } else if str_eq(name, "approvecomment") {
            Some(ModActionType::ApproveComment)
        } else if str_eq(name, "addmoderator") {
            Some(ModActionType::AddModerator)
        } else if str_eq(name, "showcomment") {
            Some(ModActionType::ShowComment)
        } else if str_eq(name, "invitemoderator") {
            Some(ModActionType::InviteModerator)
        } else if str_eq(name, "uninvitemoderator") {
            Some(ModActionType::UninviteModerator)
        } else if str_eq(name, "acceptmoderatorinvite") {
            Some(ModActionType::AcceptModeratorInvite)
        } else if str_eq(name, "removemoderator") {
            Some(ModActionType::RemoveModerator)
        } else if str_eq(name, "addcontributor") {
            Some(ModActionType::AddContributor)
        } else if str_eq(name, "removecontributor") {
            Some(ModActionType::RemoveContributor)
        } else if str_eq(name, "editsettings") {
            Some(ModActionType::EditSettings)
        } else if str_eq(name, "editflair") {
            Some(ModActionType::EditFlair)
        } else if str_eq(name, "distinguish") {
            Some(ModActionType::Distinguish)
        } else if str_eq(name, "marknsfw") {
            Some(ModActionType::MarkNsfw)
        } else if str_eq(name, "wikibanned") {
            Some(ModActionType::WikiBanned)
        } else if str_eq(name, "wikicontributor") {
            Some(ModActionType::WikiContributor)
        } else if str_eq(name, "wikiunbanned") {
            Some(ModActionType::WikiUnbanned)
        } else if str_eq(name, "wikipagelisted") {
            Some(ModActionType::WikiPageListed)
        } else if str_eq(name, "removewikicontributor") {
            Some(ModActionType::RemoveWikiContributor)
        } else if str_eq(name, "wikirevise") {
            Some(ModActionType::WikiRevise)
        } else if str_eq(name, "wikipermlevel") {
            Some(ModActionType::WikiPermLevel)
        } else if str_eq(name, "ignorereports") {
            Some(ModActionType::IgnoreReports)
        } else if str_eq(name, "unignorereports") {
            Some(ModActionType::UnignoreReports)
        } else if str_eq(name, "setpermissions") {
            Some(ModActionType::SetPermissions)
        } else if str_eq(name, "setsuggestedsort") {
            Some(ModActionType::SetSuggestedSort)
        } else if str_eq(name, "sticky") {
            Some(ModActionType::Sticky)
        } else if str_eq(name, "unsticky") {
            Some(ModActionType::Unsticky)
        } else if str_eq(name, "setcontestmode") {
            Some(ModActionType::SetContestMode)
        } else if str_eq(name, "unsetcontestmode") {
            Some(ModActionType::UnsetContestMode)
        } else if str_eq(name, "lock") {
            Some(ModActionType::Lock)
        } else if str_eq(name, "unlock") {
            Some(ModActionType::Unlock)
        } else if str_eq(name, "muteuser") {
            Some(ModActionType::MuteUser)
        } else if str_eq(name, "unmuteuser") {
            Some(ModActionType::UnmuteUser)
        } else if str_eq(name, "createrule") {
            Some(ModActionType::CreateRule)
        } else if str_eq(name, "editrule") {
            Some(ModActionType::EditRule)
        } else if str_eq(name, "reorderrules") {
            Some(ModActionType::ReorderRules)
        } else if str_eq(name, "deleterule") {
            Some(ModActionType::DeleteRule)
        } else if str_eq(name, "spoiler") {
            Some(ModActionType::Spoiler)
        } else if str_eq(name, "unspoiler") {
            Some(ModActionType::Unspoiler)
        } else if str_eq(name, "modmail_enrollment") {
            Some(ModActionType::ModmailEnrollment)
        } else if str_eq(name, "community_status") {
            Some(ModActionType::CommunityStatus)
        } else if str_eq(name, "community_styling") {
            Some(ModActionType::CommunityStyling)
        } else if str_eq(name, "community_welcome_page") {
            Some(ModActionType::CommunityWelcomePage)
        } else if str_eq(name, "community_widgets") {
            Some(ModActionType::CommunityWidgets)
        } else if str_eq(name, "markoriginalcontent") {
            Some(ModActionType::MarkOriginalContent)
        } else if str_eq(name, "collections") {
            Some(ModActionType::Collections)
        } else if str_eq(name, "events") {
            Some(ModActionType::Events)
        } else if str_eq(name, "hidden_award") {
            Some(ModActionType::HiddenAward)
        } else if str_eq(name, "add_community_topics") {
            Some(ModActionType::AddCommunityTopics)
        } else if str_eq(name, "remove_community_topics") {
            Some(ModActionType::RemoveCommunityTopics)
        } else if str_eq(name, "create_scheduled_post") {
            Some(ModActionType::CreateScheduledPost)
        } else if str_eq(name, "edit_scheduled_post") {
            Some(ModActionType::EditScheduledPost)
        } else if str_eq(name, "delete_scheduled_post") {
            Some(ModActionType::DeleteScheduledPost)
        } else if str_eq(name, "submit_scheduled_post") {
            Some(ModActionType::SubmitScheduledPost)
        } else if str_eq(name, "edit_comment_requirements") {
            Some(ModActionType::EditCommentRequirements)
        } else if str_eq(name, "edit_post_requirements") {
            Some(ModActionType::EditPostRequirements)
        } else if str_eq(name, "invitesubscriber") {
            Some(ModActionType::InviteSubscriber)
        } else if str_eq(name, "submit_content_rating_survey") {
            Some(ModActionType::SubmitContentRatingSurvey)
        } else if str_eq(name, "adjust_post_crowd_control_level") {
            Some(ModActionType::AdjustPostCrowdControlLevel)
        } else if str_eq(name, "enable_post_crowd_control_filter") {
            Some(ModActionType::EnablePostCrowdControlFilter)
        } else if str_eq(name, "disable_post_crowd_control_filter") {
            Some(ModActionType::DisablePostCrowdControlFilter)
        } else if str_eq(name, "deleteoverriddenclassification") {
            Some(ModActionType::DeleteOverriddenClassification)
        } else if str_eq(name, "overrideclassification") {
            Some(ModActionType::OverrideClassification)
        } else if str_eq(name, "reordermoderators") {
            Some(ModActionType::ReorderModerators)
        } else if str_eq(name, "request_assistance") {
            Some(ModActionType::RequestAssistance)
        } else if str_eq(name, "snoozereports") {
            Some(ModActionType::SnoozeReports)
        } else if str_eq(name, "unsnoozereports") {
            Some(ModActionType::UnsnoozeReports)
        } else if str_eq(name, "addnote") {
            Some(ModActionType::AddNote)
        } else if str_eq(name, "deletenote") {
            Some(ModActionType::DeleteNote)
        } else if str_eq(name, "addremovalreason") {
            Some(ModActionType::AddRemovalReason)
        } else if str_eq(name, "createremovalreason") {
            Some(ModActionType::CreateRemovalReason)
        } else if str_eq(name, "updateremovalreason") {
            Some(ModActionType::UpdateRemovalReason)
        } else if str_eq(name, "deleteremovalreason") {
            Some(ModActionType::DeleteRemovalReason)
        } else if str_eq(name, "reorderremovalreason") {
            Some(ModActionType::ReorderRemovalReason)
        } else if str_eq(name, "dev_platform_app_changed") {
            Some(ModActionType::DevPlatformAppChanged)
        } else if str_eq(name, "dev_platform_app_disabled") {
            Some(ModActionType::DevPlatformAppDisabled)
        } else if str_eq(name, "dev_platform_app_enabled") {
            Some(ModActionType::DevPlatformAppEnabled)
        } else if str_eq(name, "dev_platform_app_installed") {
            Some(ModActionType::DevPlatformAppInstalled)
        } else if str_eq(name, "dev_platform_app_uninstalled") {
            Some(ModActionType::DevPlatformAppUninstalled)
        } else if str_eq(name, "edit_saved_response") {
            Some(ModActionType::EditSavedResponse)
        } else if str_eq(name, "chat_approve_message") {
            Some(ModActionType::ChatApproveMessage)
        } else if str_eq(name, "chat_remove_message") {
            Some(ModActionType::ChatRemoveMessage)
        } else if str_eq(name, "chat_ban_user") {
            Some(ModActionType::ChatBanUser)
        } else if str_eq(name, "chat_unban_user") {
            Some(ModActionType::ChatUnbanUser)
        } else if str_eq(name, "chat_invite_host") {
            Some(ModActionType::ChatInviteHost)
        } else if str_eq(name, "chat_remove_host") {
            Some(ModActionType::ChatRemoveHost)
        } else if str_eq(name, "approve_award") {
            Some(ModActionType::ApproveAward)
        } else {
            None
        }
    }
}

impl Decode for ModActionType {
    open spec fn decodes(doc: JsonValue) -> bool {
        doc matches JsonValue::Str(s) && exists|action: ModActionType| action.wire_name() == s
    }

    open spec fn agrees(&self, doc: JsonValue) -> bool {
        doc == JsonValue::Str(self.wire_name())
    }

    fn decode(doc: &Json) -> (r: Result<Self, DecodeError>) {
        match doc.as_str() {
            Some(s) => match ModActionType::from_name(s) {
                Some(action) => Ok(action),
                None => Err(DecodeError),
            },
            None => Err(DecodeError),
        }
    }
}

/// An action in the moderation log.
#[derive(Debug, PartialEq)]
pub struct ModActionData {
    /// The id of the action.
    pub id: String,
    /// The details of the action, which may be empty.
    pub details: String,
    /// What was done.
    pub action: ModActionType,
    /// The id of the moderator, in base 36.
    pub mod_id36: String,
    /// When the action was taken.
    pub created_utc: serde_json::Number,
    /// The name of the subreddit.
    pub subreddit: String,
    /// The title of the post that the action is about.
    pub target_title: Option<String>,
    /// The permalink of the thing that the action is about.
    pub target_permalink: Option<String>,
    /// The text of the thing that the action is about.
    pub target_body: Option<String>,
    /// The author of the thing that the action is about.
    pub target_author: Option<String>,
    /// The fullname of the thing that the action is about.
    pub target_fullname: Option<ThingFullname>,
    /// The moderator who took the action; on the wire the member `mod`.
    pub moderator: String,
}

impl Decode for ModActionData {
    open spec fn decodes(doc: JsonValue) -> bool {
        &&& str_field(doc, "id"@) is Some
        &&& str_field(doc, "details"@) is Some
        &&& item_field_decodes::<ModActionType>(doc, "action"@)
        &&& str_field(doc, "mod_id36"@) is Some
        &&& number_field(doc, "created_utc"@) is Some
        &&& str_field(doc, "subreddit"@) is Some
        &&& opt_str_field(doc, "target_title"@) is Some
        &&& opt_str_field(doc, "target_permalink"@) is Some
        &&& opt_str_field(doc, "target_body"@) is Some
        &&& opt_str_field(doc, "target_author"@) is Some
        &&& opt_fullname_field(doc, "target_fullname"@) is Some
        &&& str_field(doc, "mod"@) is Some
    }

    open spec fn agrees(&self, doc: JsonValue) -> bool {
        &&& str_field(doc, "id"@) == Some(self.id@)
        &&& str_field(doc, "details"@) == Some(self.details@)
        &&& item_field_agrees(self.action, doc, "action"@)
        &&& str_field(doc, "mod_id36"@) == Some(self.mod_id36@)
        &&& number_field(doc, "created_utc"@) == Some(number_view(self.created_utc))
        &&& str_field(doc, "subreddit"@) == Some(self.subreddit@)
        &&& opt_str_field(doc, "target_title"@) == Some(opt_text(self.target_title))
        &&& opt_str_field(doc, "target_permalink"@) == Some(opt_text(self.target_permalink))
        &&& opt_str_field(doc, "target_body"@) == Some(opt_text(self.target_body))
        &&& opt_str_field(doc, "target_author"@) == Some(opt_text(self.target_author))
        &&& opt_fullname_field(doc, "target_fullname"@) == Some(
            opt_fullname_text(self.target_fullname),
        )
        &&& str_field(doc, "mod"@) == Some(self.moderator@)
    }

    fn decode(doc: &Json) -> (r: Result<Self, DecodeError>) {
        let id = req_str(doc, "id")?;
        let details = req_str(doc, "details")?;
        let action = req_item(doc, "action")?;
        let mod_id36 = req_str(doc, "mod_id36")?;
        let created_utc = req_number(doc, "created_utc")?;
        let subreddit = req_str(doc, "subreddit")?;
        let target_title = opt_str(doc, "target_title")?;
        let target_permalink = opt_str(doc, "target_permalink")?;
        let target_body = opt_str(doc, "target_body")?;
        let target_author = opt_str(doc, "target_author")?;
        let target_fullname = opt_fullname(doc, "target_fullname")?;
        let moderator = req_str(doc, "mod")?;
        Ok(
            ModActionData {
                id,
                details,
                action,
                mod_id36,
                created_utc,
                subreddit,
                target_title,
                target_permalink,
                target_body,
                target_author,
                target_fullname,
                moderator,
            },
        )
    }
}

} // verus!
