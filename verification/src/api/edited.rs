//! Whether, and when, a thing was edited.

use crate::decode::DecodeError;
use crate::json::{number_copy, number_view, Json, JsonValue};
use vstd::prelude::*;

verus! {

/// The edit state of a thing.
#[derive(Debug, PartialEq)]
pub enum Edited {
    /// Edited at this time, in seconds since the epoch.
    EditedAt(serde_json::Number),
    /// Never edited.
    NotEdited,
}

impl Edited {
    /// Whether a document is an edit state: `false` or a number.
    pub open spec fn decodes(doc: JsonValue) -> bool {
        doc == JsonValue::Bool(false) || doc is Number
    }

    /// The document that stands for a value: `false`, or the time.
    pub open spec fn encoded(self) -> JsonValue {
        match self {
            Edited::NotEdited => JsonValue::Bool(false),
            Edited::EditedAt(n) => JsonValue::Number(number_view(n)),
        }
    }

    /// Reads a value from a document: `false` is `NotEdited`, a number is
    /// `EditedAt` that number, and `true` and every other shape is
    /// rejected.
    pub fn decode(doc: &Json) -> (r: Result<Self, DecodeError>)
        ensures
            r is Ok <==> Self::decodes(doc@),
            r matches Ok(e) ==> e.encoded() == doc@,
            doc@ == JsonValue::Bool(false) ==> r == Ok::<Self, DecodeError>(Edited::NotEdited),
            doc@ == JsonValue::Bool(true) ==> r is Err,
    {
        match doc {
            Json::Bool(b) => if *b {
                Err(DecodeError)
            } else {
                Ok(Edited::NotEdited)
            },
            Json::Number(n) => Ok(Edited::EditedAt(number_copy(n))),
            _ => Err(DecodeError),
        }
    }

    /// Writes a value as a document.
    pub fn encode(&self) -> (j: Json)
        ensures
            j@ == self.encoded(),
    {
        match self {
            Edited::NotEdited => Json::Bool(false),
            Edited::EditedAt(n) => Json::Number(number_copy(n)),
        }
    }

    /// What was written is read again, and as a value that writes the same.
    pub proof fn lemma_round_trip(self)
        ensures
            Self::decodes(self.encoded()),
    {
    }
}

} // verus!
