//! Reports on a submission, by moderators and by users.

use crate::decode::{bool_of, int_of, items_of, text_of, DecodeError};
use crate::json::{lemma_array_view, number_of_i64, Json, JsonValue, NumberValue};
use vstd::prelude::*;

verus! {

/// A report by one of the subreddit's moderators: on the wire an array of
/// the moderator's name and the reason.
#[derive(Debug, PartialEq)]
pub struct SubmissionModeratorReport {
    moderator: String,
    reason: String,
}

impl SubmissionModeratorReport {
    /// The moderator's name, as a text.
    pub closed spec fn moderator_text(&self) -> Seq<char> {
        self.moderator@
    }

    /// The reason, as a text.
    pub closed spec fn reason_text(&self) -> Seq<char> {
        self.reason@
    }

    /// Whether a document is a moderator report: an array of two strings.
    pub open spec fn decodes(doc: JsonValue) -> bool {
        &&& items_of(doc) matches Some(items)
        &&& items.len() == 2
        &&& text_of(items[0]) is Some
        &&& text_of(items[1]) is Some
    }

    /// The document that stands for a report.
    pub open spec fn encoded(&self) -> JsonValue {
        JsonValue::Array(
            seq![JsonValue::Str(self.moderator_text()), JsonValue::Str(self.reason_text())],
        )
    }

    /// A report of this moderator for this reason.
    pub fn new(moderator: &str, reason: &str) -> (r: Self)
        ensures
            r.moderator_text() == moderator@,
            r.reason_text() == reason@,
    {
        SubmissionModeratorReport { moderator: moderator.to_owned(), reason: reason.to_owned() }
    }

    /// The name of the moderator.
    pub fn moderator(&self) -> (r: &str)
        ensures
            r@ == self.moderator_text(),
    {
        self.moderator.as_str()
    }

    /// The reason for the report.
    pub fn reason(&self) -> (r: &str)
        ensures
            r@ == self.reason_text(),
    {
        self.reason.as_str()
    }

    /// Reads a report from a document.
    pub fn decode(doc: &Json) -> (r: Result<Self, DecodeError>)
        ensures
            r is Ok <==> Self::decodes(doc@),
            r matches Ok(report) ==> report.encoded() == doc@,
    {
        let items = match doc.as_array() {
            Some(items) => items,
            None => {
                return Err(DecodeError);
            },
        };
        if items.len() != 2 {
            return Err(DecodeError);
        }
        let moderator = match items[0].as_str() {
            Some(s) => s.to_owned(),
            None => {
                return Err(DecodeError);
            },
        };
        let reason = match items[1].as_str() {
            Some(s) => s.to_owned(),
            None => {
                return Err(DecodeError);
            },
        };
        let report = SubmissionModeratorReport { moderator, reason };
        proof {
            assert(report.encoded()->Array_0 =~= doc@->Array_0);
        }
        Ok(report)
    }

    /// Writes a report as a document.
    pub fn encode(&self) -> (j: Json)
        ensures
            j@ == self.encoded(),
    {
        let mut items: Vec<Json> = Vec::new();
        items.push(Json::Str(self.moderator.clone()));
        items.push(Json::Str(self.reason.clone()));
        let j = Json::Array(items);
        proof {
            lemma_array_view(j);
            assert(j@->Array_0 =~= self.encoded()->Array_0);
        }
        j
    }

    /// What was written is read again, and as a report that writes the
    /// same.
    pub proof fn lemma_round_trip(&self)
        ensures
            Self::decodes(self.encoded()),
    {
    }
}

/// Reports by users of the subreddit for one rule: on the wire an array of
/// the rule, the number of reports and two booleans.
#[derive(Debug, PartialEq)]
pub struct SubmissionUserReport {
    /// The short name of the rule, or a custom reason.
    pub rule: String,
    /// The number of reports made.
    pub count: i32,
    /// The first boolean, of unknown meaning.
    pub unknown1: bool,
    /// The second boolean, of unknown meaning.
    pub unknown2: bool,
}

impl SubmissionUserReport {
    /// Whether a document is a user report: an array of a string, an
    /// integer of 32 bits and two booleans.
    pub open spec fn decodes(doc: JsonValue) -> bool {
        &&& items_of(doc) matches Some(items)
        &&& items.len() == 4
        &&& text_of(items[0]) is Some
        &&& int_of(items[1], i32::MIN as int, i32::MAX as int) is Some
        &&& bool_of(items[2]) is Some
        &&& bool_of(items[3]) is Some
    }

    /// The document that stands for a report: its four fields in order.
    pub open spec fn encoded(&self) -> JsonValue {
        JsonValue::Array(
            seq![
                JsonValue::Str(self.rule@),
                JsonValue::Number(NumberValue::Int(self.count as int)),
                JsonValue::Bool(self.unknown1),
                JsonValue::Bool(self.unknown2),
            ],
        )
    }

    /// Reads a report from a document.
    pub fn decode(doc: &Json) -> (r: Result<Self, DecodeError>)
        ensures
            r is Ok <==> Self::decodes(doc@),
            r matches Ok(report) ==> report.encoded() == doc@,
    {
        let items = match doc.as_array() {
            Some(items) => items,
            None => {
                return Err(DecodeError);
            },
        };
        if items.len() != 4 {
            return Err(DecodeError);
        }
        let rule = match items[0].as_str() {
            Some(s) => s.to_owned(),
            None => {
                return Err(DecodeError);
            },
        };
        let count: i32 = match items[1].as_int() {
            Some(i) => if -2147483648 <= i && i <= 2147483647 {
                i as i32
            } else {
                return Err(DecodeError);
            },
            None => {
                return Err(DecodeError);
            },
        };
        let unknown1 = match items[2].as_bool() {
            Some(b) => b,
            None => {
                return Err(DecodeError);
            },
        };
        let unknown2 = match items[3].as_bool() {
            Some(b) => b,
            None => {
                return Err(DecodeError);
            },
        };
        let report = SubmissionUserReport { rule, count, unknown1, unknown2 };
        proof {
            assert(report.encoded()->Array_0 =~= doc@->Array_0);
        }
        Ok(report)
    }

    /// Writes a report as a document.
    pub fn encode(&self) -> (j: Json)
        ensures
            j@ == self.encoded(),
    {
        let mut items: Vec<Json> = Vec::new();
        items.push(Json::Str(self.rule.clone()));
        items.push(Json::Number(number_of_i64(self.count as i64)));
        items.push(Json::Bool(self.unknown1));
        items.push(Json::Bool(self.unknown2));
        let j = Json::Array(items);
        proof {
            lemma_array_view(j);
            assert(j@->Array_0 =~= self.encoded()->Array_0);
        }
        j
    }

    /// What was written is read again, and as a report that writes the
    /// same.
    pub proof fn lemma_round_trip(&self)
        ensures
            Self::decodes(self.encoded()),
    {
    }
}

/// The document that stands for a list of moderator reports: the array
/// of their documents.
pub open spec fn moderator_reports_encoded(reports: Seq<SubmissionModeratorReport>) -> JsonValue {
    JsonValue::Array(Seq::new(reports.len(), |i: int| reports[i].encoded()))
}

/// The document that stands for a list of user reports: the array of
/// their documents.
pub open spec fn user_reports_encoded(reports: Seq<SubmissionUserReport>) -> JsonValue {
    JsonValue::Array(Seq::new(reports.len(), |i: int| reports[i].encoded()))
}

/// Whether a document is a list of moderator reports.
pub open spec fn moderator_reports_decode(doc: JsonValue) -> bool {
    &&& items_of(doc) matches Some(items)
    &&& forall|i: int|
        0 <= i < items.len() ==> SubmissionModeratorReport::decodes(#[trigger] items[i])
}

/// Whether a document is a list of user reports.
pub open spec fn user_reports_decode(doc: JsonValue) -> bool {
    &&& items_of(doc) matches Some(items)
    &&& forall|i: int| 0 <= i < items.len() ==> SubmissionUserReport::decodes(#[trigger] items[i])
}

/// Reads a list of moderator reports.
pub fn decode_moderator_reports(doc: &Json) -> (r: Result<
    Vec<SubmissionModeratorReport>,
    DecodeError,
>)
    ensures
        r is Ok <==> moderator_reports_decode(doc@),
        r matches Ok(reports) ==> moderator_reports_encoded(reports@) == doc@,
{
    let items = match doc.as_array() {
        Some(items) => items,
        None => {
            return Err(DecodeError);
        },
    };
    let ghost models = items_of(doc@)->0;
    let mut reports: Vec<SubmissionModeratorReport> = Vec::new();
    let mut i: usize = 0;
    while i < items.len()
        invariant
            i <= items.len(),
            reports@.len() == i,
            items_of(doc@) == Some(models),
            models.len() == items@.len(),
            forall|k: int| 0 <= k < items@.len() ==> models[k] == (#[trigger] items@[k])@,
            forall|k: int| 0 <= k < i ==> SubmissionModeratorReport::decodes(#[trigger] models[k]),
            forall|k: int| 0 <= k < i ==> (#[trigger] reports@[k]).encoded() == models[k],
        decreases items.len() - i,
    {
        match SubmissionModeratorReport::decode(&items[i]) {
            Ok(report) => {
                reports.push(report);
            },
            Err(e) => {
                assert(!SubmissionModeratorReport::decodes(models[i as int]));
                assert(items_of(doc@)->0[i as int] == models[i as int]);
                return Err(e);
            },
        }
        i = i + 1;
    }
    proof {
        assert(moderator_reports_encoded(reports@)->Array_0 =~= models);
    }
    Ok(reports)
}

/// Reads a list of user reports.
pub fn decode_user_reports(doc: &Json) -> (r: Result<Vec<SubmissionUserReport>, DecodeError>)
    ensures
        r is Ok <==> user_reports_decode(doc@),
        r matches Ok(reports) ==> user_reports_encoded(reports@) == doc@,
{
    let items = match doc.as_array() {
        Some(items) => items,
        None => {
            return Err(DecodeError);
        },
    };
    let ghost models = items_of(doc@)->0;
    let mut reports: Vec<SubmissionUserReport> = Vec::new();
    let mut i: usize = 0;
    while i < items.len()
        invariant
            i <= items.len(),
            reports@.len() == i,
            items_of(doc@) == Some(models),
            models.len() == items@.len(),
            forall|k: int| 0 <= k < items@.len() ==> models[k] == (#[trigger] items@[k])@,
            forall|k: int| 0 <= k < i ==> SubmissionUserReport::decodes(#[trigger] models[k]),
            forall|k: int| 0 <= k < i ==> (#[trigger] reports@[k]).encoded() == models[k],
        decreases items.len() - i,
    {
        match SubmissionUserReport::decode(&items[i]) {
            Ok(report) => {
                reports.push(report);
            },
            Err(e) => {
                assert(!SubmissionUserReport::decodes(models[i as int]));
                assert(items_of(doc@)->0[i as int] == models[i as int]);
                return Err(e);
            },
        }
        i = i + 1;
    }
    proof {
        assert(user_reports_encoded(reports@)->Array_0 =~= models);
    }
    Ok(reports)
}

/// Writes a list of moderator reports as a document.
pub fn encode_moderator_reports(reports: &Vec<SubmissionModeratorReport>) -> (j: Json)
    ensures
        j@ == moderator_reports_encoded(reports@),
{
    let mut items: Vec<Json> = Vec::new();
    let mut i: usize = 0;
    while i < reports.len()
        invariant
            i <= reports.len(),
            items@.len() == i,
            forall|k: int| 0 <= k < i ==> (#[trigger] items@[k])@ == reports@[k].encoded(),
        decreases reports.len() - i,
    {
        items.push(reports[i].encode());
        i = i + 1;
    }
    let j = Json::Array(items);
    proof {
        lemma_array_view(j);
        assert(j@->Array_0 =~= moderator_reports_encoded(reports@)->Array_0);
    }
    j
}

/// Writes a list of user reports as a document.
pub fn encode_user_reports(reports: &Vec<SubmissionUserReport>) -> (j: Json)
    ensures
        j@ == user_reports_encoded(reports@),
{
    let mut items: Vec<Json> = Vec::new();
    let mut i: usize = 0;
    while i < reports.len()
        invariant
            i <= reports.len(),
            items@.len() == i,
            forall|k: int| 0 <= k < i ==> (#[trigger] items@[k])@ == reports@[k].encoded(),
        decreases reports.len() - i,
    {
        items.push(reports[i].encode());
        i = i + 1;
    }
    let j = Json::Array(items);
    proof {
        lemma_array_view(j);
        assert(j@->Array_0 =~= user_reports_encoded(reports@)->Array_0);
    }
    j
}

/// A list of moderator reports that was written is read again.
pub proof fn lemma_moderator_reports_round_trip(reports: Seq<SubmissionModeratorReport>)
    ensures
        moderator_reports_decode(moderator_reports_encoded(reports)),
{
    let items = moderator_reports_encoded(reports)->Array_0;
    assert forall|i: int| 0 <= i < items.len() implies SubmissionModeratorReport::decodes(
        #[trigger] items[i],
    ) by {
        reports[i].lemma_round_trip();
    }
}

/// A list of user reports that was written is read again.
pub proof fn lemma_user_reports_round_trip(reports: Seq<SubmissionUserReport>)
    ensures
        user_reports_decode(user_reports_encoded(reports)),
{
    let items = user_reports_encoded(reports)->Array_0;
    assert forall|i: int| 0 <= i < items.len() implies SubmissionUserReport::decodes(
        #[trigger] items[i],
    ) by {
        reports[i].lemma_round_trip();
    }
}

} // verus!
