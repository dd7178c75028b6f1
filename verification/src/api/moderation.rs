//! What a moderator sees of a submission.

use crate::api::reports::{decode_moderator_reports, decode_user_reports,
    encode_moderator_reports, encode_user_reports, lemma_moderator_reports_round_trip,
    lemma_user_reports_round_trip, moderator_reports_decode, moderator_reports_encoded,
    user_reports_decode, user_reports_encoded, SubmissionModeratorReport, SubmissionUserReport};
use crate::decode::{bool_field, encode_opt_number, encode_opt_str, field, int_field,
    lemma_field_at, member, opt_number, opt_number_field, opt_number_value, opt_number_view,
    opt_str, opt_str_field, opt_str_value, opt_text, req_bool, req_i32, DecodeError};
use crate::json::{lemma_object_view, number_of_i64, Json, JsonValue, Member, MemberValue,
    NumberValue};
use crate::decode::Decode;
use vstd::prelude::*;

verus! {

/// The moderation state of a submission.
#[derive(Debug, PartialEq)]
pub struct SubmissionModerationData {
    /// Whether the post has been approved.
    pub approved: bool,
    /// When it was approved.
    pub approved_at_utc: Option<serde_json::Number>,
    /// Which moderator approved it.
    pub approved_by: Option<String>,
    /// The note of the ban.
    pub ban_note: Option<String>,
    /// When it was banned.
    pub banned_at_utc: Option<serde_json::Number>,
    /// Which moderator banned it.
    pub banned_by: Option<String>,
    /// Whether further reports are discarded.
    pub ignore_reports: bool,
    /// The note of the moderators.
    pub mod_note: Option<String>,
    /// Who gave the reason.
    pub mod_reason_by: Option<String>,
    /// The title of the reason.
    pub mod_reason_title: Option<String>,
    /// The reports by moderators.
    pub mod_reports: Vec<SubmissionModeratorReport>,
    /// The number of reports.
    pub num_reports: i32,
    /// The reason given for the removal.
    pub removal_reason: Option<String>,
    /// Whether the post has been removed.
    pub removed: bool,
    /// Who removed it.
    pub removed_by: Option<String>,
    /// Which kind of user removed it.
    pub removed_by_category: Option<String>,
    /// Whether it was removed as spam.
    pub spam: bool,
    /// The reports by users.
    pub user_reports: Vec<SubmissionUserReport>,
}

impl Decode for SubmissionModerationData {
    /// Whether a document has the fields of the moderation state.
    open spec fn decodes(doc: JsonValue) -> bool {
        &&& bool_field(doc, "approved"@) is Some
        &&& opt_number_field(doc, "approved_at_utc"@) is Some
        &&& opt_str_field(doc, "approved_by"@) is Some
        &&& opt_str_field(doc, "ban_note"@) is Some
        &&& opt_number_field(doc, "banned_at_utc"@) is Some
        &&& opt_str_field(doc, "banned_by"@) is Some
        &&& bool_field(doc, "ignore_reports"@) is Some
        &&& opt_str_field(doc, "mod_note"@) is Some
        &&& opt_str_field(doc, "mod_reason_by"@) is Some
        &&& opt_str_field(doc, "mod_reason_title"@) is Some
        &&& field(doc, "mod_reports"@) matches Some(v) && moderator_reports_decode(v)
        &&& int_field(doc, "num_reports"@, i32::MIN as int, i32::MAX as int) is Some
        &&& opt_str_field(doc, "removal_reason"@) is Some
        &&& bool_field(doc, "removed"@) is Some
        &&& opt_str_field(doc, "removed_by"@) is Some
        &&& opt_str_field(doc, "removed_by_category"@) is Some
        &&& bool_field(doc, "spam"@) is Some
        &&& field(doc, "user_reports"@) matches Some(v) && user_reports_decode(v)
    }

    /// Whether the value holds what the document says.
    open spec fn agrees(&self, doc: JsonValue) -> bool {
        &&& bool_field(doc, "approved"@) == Some(self.approved)
        &&& opt_number_field(doc, "approved_at_utc"@) == Some(
            opt_number_view(self.approved_at_utc),
        )
        &&& opt_str_field(doc, "approved_by"@) == Some(opt_text(self.approved_by))
        &&& opt_str_field(doc, "ban_note"@) == Some(opt_text(self.ban_note))
        &&& opt_number_field(doc, "banned_at_utc"@) == Some(opt_number_view(self.banned_at_utc))
        &&& opt_str_field(doc, "banned_by"@) == Some(opt_text(self.banned_by))
        &&& bool_field(doc, "ignore_reports"@) == Some(self.ignore_reports)
        &&& opt_str_field(doc, "mod_note"@) == Some(opt_text(self.mod_note))
        &&& opt_str_field(doc, "mod_reason_by"@) == Some(opt_text(self.mod_reason_by))
        &&& opt_str_field(doc, "mod_reason_title"@) == Some(opt_text(self.mod_reason_title))
        &&& field(doc, "mod_reports"@) == Some(moderator_reports_encoded(self.mod_reports@))
        &&& int_field(doc, "num_reports"@, i32::MIN as int, i32::MAX as int) == Some(
            self.num_reports as int,
        )
        &&& opt_str_field(doc, "removal_reason"@) == Some(opt_text(self.removal_reason))
        &&& bool_field(doc, "removed"@) == Some(self.removed)
        &&& opt_str_field(doc, "removed_by"@) == Some(opt_text(self.removed_by))
        &&& opt_str_field(doc, "removed_by_category"@) == Some(
            opt_text(self.removed_by_category),
        )
        &&& bool_field(doc, "spam"@) == Some(self.spam)
        &&& field(doc, "user_reports"@) == Some(user_reports_encoded(self.user_reports@))
    }

    /// Reads the moderation state from a document.
    fn decode(doc: &Json) -> (r: Result<Self, DecodeError>) {
        let approved = req_bool(doc, "approved")?;
        let approved_at_utc = opt_number(doc, "approved_at_utc")?;
        let approved_by = opt_str(doc, "approved_by")?;
        let ban_note = opt_str(doc, "ban_note")?;
        let banned_at_utc = opt_number(doc, "banned_at_utc")?;
        let banned_by = opt_str(doc, "banned_by")?;
        let ignore_reports = req_bool(doc, "ignore_reports")?;
        let mod_note = opt_str(doc, "mod_note")?;
        let mod_reason_by = opt_str(doc, "mod_reason_by")?;
        let mod_reason_title = opt_str(doc, "mod_reason_title")?;
        let mod_reports = match doc.get("mod_reports") {
            Some(v) => decode_moderator_reports(v)?,
            None => {
                return Err(DecodeError);
            },
        };
        let num_reports = req_i32(doc, "num_reports")?;
        let removal_reason = opt_str(doc, "removal_reason")?;
        let removed = req_bool(doc, "removed")?;
        let removed_by = opt_str(doc, "removed_by")?;
        let removed_by_category = opt_str(doc, "removed_by_category")?;
        let spam = req_bool(doc, "spam")?;
        let user_reports = match doc.get("user_reports") {
            Some(v) => decode_user_reports(v)?,
            None => {
                return Err(DecodeError);
            },
        };
        Ok(
            SubmissionModerationData {
                approved,
                approved_at_utc,
                approved_by,
                ban_note,
                banned_at_utc,
                banned_by,
                ignore_reports,
                mod_note,
                mod_reason_by,
                mod_reason_title,
                mod_reports,
                num_reports,
                removal_reason,
                removed,
                removed_by,
                removed_by_category,
                spam,
                user_reports,
            },
        )
    }
}

impl SubmissionModerationData {
    /// The members that stand for the moderation state, after the member
    /// `can_mod_post`.
    pub open spec fn encoded_members(&self) -> Seq<MemberValue> {
        seq![
            MemberValue { key: "can_mod_post"@, value: JsonValue::Bool(true) },
            MemberValue { key: "approved"@, value: JsonValue::Bool(self.approved) },
            MemberValue { key: "approved_at_utc"@, value: opt_number_value(self.approved_at_utc) },
            MemberValue { key: "approved_by"@, value: opt_str_value(self.approved_by) },
            MemberValue { key: "ban_note"@, value: opt_str_value(self.ban_note) },
            MemberValue { key: "banned_at_utc"@, value: opt_number_value(self.banned_at_utc) },
            MemberValue { key: "banned_by"@, value: opt_str_value(self.banned_by) },
            MemberValue { key: "ignore_reports"@, value: JsonValue::Bool(self.ignore_reports) },
            MemberValue { key: "mod_note"@, value: opt_str_value(self.mod_note) },
            MemberValue { key: "mod_reason_by"@, value: opt_str_value(self.mod_reason_by) },
            MemberValue { key: "mod_reason_title"@, value: opt_str_value(self.mod_reason_title) },
            MemberValue {
                key: "mod_reports"@,
                value: moderator_reports_encoded(self.mod_reports@),
            },
            MemberValue {
                key: "num_reports"@,
                value: JsonValue::Number(NumberValue::Int(self.num_reports as int)),
            },
            MemberValue { key: "removal_reason"@, value: opt_str_value(self.removal_reason) },
            MemberValue { key: "removed"@, value: JsonValue::Bool(self.removed) },
            MemberValue { key: "removed_by"@, value: opt_str_value(self.removed_by) },
            MemberValue {
                key: "removed_by_category"@,
                value: opt_str_value(self.removed_by_category),
            },
            MemberValue { key: "spam"@, value: JsonValue::Bool(self.spam) },
            MemberValue { key: "user_reports"@, value: user_reports_encoded(self.user_reports@) },
        ]
    }

    /// Writes the members that stand for the moderation state.
    pub fn encode_members(&self) -> (members: Vec<Member>)
        ensures
            members@.len() == self.encoded_members().len(),
            forall|i: int|
                0 <= i < members@.len() ==> (#[trigger] members@[i]).key@
                    == self.encoded_members()[i].key && members@[i].value@
                    == self.encoded_members()[i].value,
    {
        let mut members: Vec<Member> = Vec::new();
        members.push(member("can_mod_post", Json::Bool(true)));
        members.push(member("approved", Json::Bool(self.approved)));
        members.push(member("approved_at_utc", encode_opt_number(&self.approved_at_utc)));
        members.push(member("approved_by", encode_opt_str(&self.approved_by)));
        members.push(member("ban_note", encode_opt_str(&self.ban_note)));
        members.push(member("banned_at_utc", encode_opt_number(&self.banned_at_utc)));
        members.push(member("banned_by", encode_opt_str(&self.banned_by)));
        members.push(member("ignore_reports", Json::Bool(self.ignore_reports)));
        members.push(member("mod_note", encode_opt_str(&self.mod_note)));
        members.push(member("mod_reason_by", encode_opt_str(&self.mod_reason_by)));
        members.push(member("mod_reason_title", encode_opt_str(&self.mod_reason_title)));
        members.push(member("mod_reports", encode_moderator_reports(&self.mod_reports)));
        members.push(member("num_reports", Json::Number(number_of_i64(self.num_reports as i64))));
        members.push(member("removal_reason", encode_opt_str(&self.removal_reason)));
        members.push(member("removed", Json::Bool(self.removed)));
        members.push(member("removed_by", encode_opt_str(&self.removed_by)));
        members.push(member("removed_by_category", encode_opt_str(&self.removed_by_category)));
        members.push(member("spam", Json::Bool(self.spam)));
        members.push(member("user_reports", encode_user_reports(&self.user_reports)));
        members
    }
}

/// What a document says of the moderation of a submission: nothing where
/// the member `can_mod_post` is missing or `false`, and the moderation state
/// where it is `true`.
pub open spec fn moderation_decodes(doc: JsonValue) -> bool {
    &&& doc is Object
    &&& match field(doc, "can_mod_post"@) {
        None => true,
        Some(JsonValue::Bool(false)) => true,
        Some(JsonValue::Bool(true)) => SubmissionModerationData::decodes(doc),
        Some(_) => false,
    }
}

/// Whether a document lets its reader moderate the submission.
pub open spec fn can_moderate(doc: JsonValue) -> bool {
    field(doc, "can_mod_post"@) == Some(JsonValue::Bool(true))
}

/// The document that stands for the moderation of a submission: the member
/// `can_mod_post`, and after it, where there is a moderation state, its
/// fields.
pub open spec fn moderation_encoded(value: Option<SubmissionModerationData>) -> JsonValue {
    match value {
        Some(m) => JsonValue::Object(m.encoded_members()),
        None => JsonValue::Object(
            seq![MemberValue { key: "can_mod_post"@, value: JsonValue::Bool(false) }],
        ),
    }
}

/// Reads the moderation of a submission from the document of the
/// submission. Where `can_mod_post` is missing or `false` there is none,
/// and the other members are not looked at.
pub fn decode_moderation(doc: &Json) -> (r: Result<Option<SubmissionModerationData>, DecodeError>)
    ensures
        r is Ok <==> moderation_decodes(doc@),
        r matches Ok(None) ==> !can_moderate(doc@),
        r matches Ok(Some(m)) ==> can_moderate(doc@) && m.agrees(doc@),
        !can_moderate(doc@) ==> r is Err || r matches Ok(None),
{
    match doc {
        Json::Object(_) => {
            proof {
                lemma_object_view(*doc);
            }
        },
        _ => {
            return Err(DecodeError);
        },
    }
    match doc.get("can_mod_post") {
        None => Ok(None),
        Some(Json::Bool(false)) => Ok(None),
        Some(Json::Bool(true)) => match SubmissionModerationData::decode(doc) {
            Ok(m) => Ok(Some(m)),
            Err(e) => Err(e),
        },
        Some(_) => Err(DecodeError),
    }
}

/// Writes the moderation of a submission as a document.
pub fn encode_moderation(value: &Option<SubmissionModerationData>) -> (j: Json)
    ensures
        j@ == moderation_encoded(*value),
{
    match value {
        Some(m) => {
            let j = Json::Object(m.encode_members());
            proof {
                lemma_object_view(j);
                assert(j@->Object_0 =~= m.encoded_members());
            }
            j
        },
        None => {
            let mut members: Vec<Member> = Vec::new();
            members.push(member("can_mod_post", Json::Bool(false)));
            let j = Json::Object(members);
            proof {
                lemma_object_view(j);
                assert(j@->Object_0 =~= seq![
                    MemberValue { key: "can_mod_post"@, value: JsonValue::Bool(false) },
                ]);
            }
            j
        },
    }
}

/// The keys of the moderation state differ from one another.
proof fn lemma_keys_differ()
    ensures
        "can_mod_post"@.len() == 12,
        "approved"@.len() == 8,
        "approved_at_utc"@.len() == 15,
        "approved_by"@.len() == 11 && "approved_by"@[0] == 'a',
        "ban_note"@.len() == 8 && "ban_note"@[0] == 'b',
        "banned_at_utc"@.len() == 13,
        "banned_by"@.len() == 9,
        "ignore_reports"@.len() == 14 && "ignore_reports"@[0] == 'i',
        "mod_note"@.len() == 8 && "mod_note"@[0] == 'm',
        "mod_reason_by"@.len() == 13 && "mod_reason_by"@[0] == 'm',
        "mod_reason_title"@.len() == 16,
        "mod_reports"@.len() == 11 && "mod_reports"@[0] == 'm',
        "num_reports"@.len() == 11 && "num_reports"@[0] == 'n',
        "removal_reason"@.len() == 14 && "removal_reason"@[0] == 'r',
        "removed"@.len() == 7,
        "removed_by"@.len() == 10,
        "removed_by_category"@.len() == 19,
        "spam"@.len() == 4,
        "user_reports"@.len() == 12 && "user_reports"@[0] == 'u',
        "approved"@[0] == 'a',
        "banned_at_utc"@[0] == 'b',
        "can_mod_post"@[0] == 'c',
{
    reveal_strlit("can_mod_post");
    reveal_strlit("approved");
    reveal_strlit("approved_at_utc");
    reveal_strlit("approved_by");
    reveal_strlit("ban_note");
    reveal_strlit("banned_at_utc");
    reveal_strlit("banned_by");
    reveal_strlit("ignore_reports");
    reveal_strlit("mod_note");
    reveal_strlit("mod_reason_by");
    reveal_strlit("mod_reason_title");
    reveal_strlit("mod_reports");
    reveal_strlit("num_reports");
    reveal_strlit("removal_reason");
    reveal_strlit("removed");
    reveal_strlit("removed_by");
    reveal_strlit("removed_by_category");
    reveal_strlit("spam");
    reveal_strlit("user_reports");
}

/// Where the viewer moderates, what was written is read again, and as
/// the moderation state that was written: no field is lost or changed.
pub proof fn lemma_moderation_round_trip(m: SubmissionModerationData)
    ensures
        moderation_decodes(moderation_encoded(Some(m))),
        can_moderate(moderation_encoded(Some(m))),
        m.agrees(moderation_encoded(Some(m))),
        SubmissionModerationData::decodes(moderation_encoded(Some(m))),
{
    lemma_keys_differ();
    lemma_moderator_reports_round_trip(m.mod_reports@);
    lemma_user_reports_round_trip(m.user_reports@);
    let members = m.encoded_members();
    assert(members.len() == 19);
    lemma_field_at(members, "can_mod_post"@, 0);
    lemma_field_at(members, "approved"@, 1);
    lemma_field_at(members, "approved_at_utc"@, 2);
    lemma_field_at(members, "approved_by"@, 3);
    lemma_field_at(members, "ban_note"@, 4);
    lemma_field_at(members, "banned_at_utc"@, 5);
    lemma_field_at(members, "banned_by"@, 6);
    lemma_field_at(members, "ignore_reports"@, 7);
    lemma_field_at(members, "mod_note"@, 8);
    lemma_field_at(members, "mod_reason_by"@, 9);
    lemma_field_at(members, "mod_reason_title"@, 10);
    lemma_field_at(members, "mod_reports"@, 11);
    lemma_field_at(members, "num_reports"@, 12);
    lemma_field_at(members, "removal_reason"@, 13);
    lemma_field_at(members, "removed"@, 14);
    lemma_field_at(members, "removed_by"@, 15);
    lemma_field_at(members, "removed_by_category"@, 16);
    lemma_field_at(members, "spam"@, 17);
    lemma_field_at(members, "user_reports"@, 18);
}

/// Without a moderation state, what was written says that its reader does
/// not moderate, and is read again as no moderation state.
pub proof fn lemma_no_moderation_round_trip()
    ensures
        moderation_decodes(moderation_encoded(None)),
        !can_moderate(moderation_encoded(None)),
{
    let members = seq![MemberValue { key: "can_mod_post"@, value: JsonValue::Bool(false) }];
    lemma_field_at(members, "can_mod_post"@, 0);
}

} // verus!
