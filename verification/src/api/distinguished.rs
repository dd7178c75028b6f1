//! How a thing is marked as written in an official capacity.

use crate::decode::{field, DecodeError};
use crate::json::{Json, JsonValue};
use crate::text::str_eq;
use vstd::prelude::*;
use vstd::string::StringExecFns;

verus! {

/// The ways in which a thing can be distinguished.
#[derive(Debug, Clone, Copy, PartialEq, Eq, Hash, Structural)]
pub enum Distinguished {
    /// Not distinguished.
    NotDistinguished,
    /// Distinguished as a moderator.
    Moderator,
    /// Distinguished as an admin.
    Admin,
    /// Distinguished in a special way.
    Special,
}

impl Distinguished {
    /// What a document says: `null` is `NotDistinguished`, the strings `moderator`,
    /// `admin` and `special` are the other three, and nothing else is
    /// accepted.
    pub open spec fn decoded(doc: JsonValue) -> Option<Distinguished> {
        match doc {
            JsonValue::Null => Some(Distinguished::NotDistinguished),
            JsonValue::Str(s) => if s == "moderator"@ {
                Some(Distinguished::Moderator)
            } else if s == "admin"@ {
                Some(Distinguished::Admin)
            } else if s == "special"@ {
                Some(Distinguished::Special)
            } else {
                None
            },
            _ => None,
        }
    }

    /// What the member `key` of an object says, a missing member counting
    /// as `null`.
    pub open spec fn field_decoded(doc: JsonValue, key: Seq<char>) -> Option<Distinguished> {
        match field(doc, key) {
            Some(v) => Self::decoded(v),
            None => Some(Distinguished::NotDistinguished),
        }
    }

    /// The document that stands for a value.
    pub open spec fn encoded(self) -> JsonValue {
        match self {
            Distinguished::NotDistinguished => JsonValue::Null,
            Distinguished::Moderator => JsonValue::Str("moderator"@),
            Distinguished::Admin => JsonValue::Str("admin"@),
            Distinguished::Special => JsonValue::Str("special"@),
        }
    }

    /// Reads a value from a document.
    pub fn decode(doc: &Json) -> (r: Result<Self, DecodeError>)
        ensures
            r is Ok <==> Self::decoded(doc@) is Some,
            r matches Ok(d) ==> Self::decoded(doc@) == Some(d),
    {
        match doc {
            Json::Null => Ok(Distinguished::NotDistinguished),
            Json::Str(s) => {
                if str_eq(s.as_str(), "moderator") {
                    Ok(Distinguished::Moderator)
                } else if str_eq(s.as_str(), "admin") {
                    Ok(Distinguished::Admin)
                } else if str_eq(s.as_str(), "special") {
                    Ok(Distinguished::Special)
                } else {
                    Err(DecodeError)
                }
            },
            _ => Err(DecodeError),
        }
    }

    /// Reads the member `key` of an object.
    pub fn decode_field(doc: &Json, key: &str) -> (r: Result<Self, DecodeError>)
        ensures
            r is Ok <==> Self::field_decoded(doc@, key@) is Some,
            r matches Ok(d) ==> Self::field_decoded(doc@, key@) == Some(d),
    {
        match doc.get(key) {
            Some(v) => Self::decode(v),
            None => Ok(Distinguished::NotDistinguished),
        }
    }

    /// Writes a value as a document.
    pub fn encode(self) -> (j: Json)
        ensures
            j@ == self.encoded(),
    {
        match self {
            Distinguished::NotDistinguished => Json::Null,
            Distinguished::Moderator => Json::Str(String::from_str("moderator")),
            Distinguished::Admin => Json::Str(String::from_str("admin")),
            Distinguished::Special => Json::Str(String::from_str("special")),
        }
    }

    /// Reading what was written gives the value back.
    pub proof fn lemma_round_trip(self)
        ensures
            Self::decoded(self.encoded()) == Some(self),
    {
        reveal_strlit("moderator");
        reveal_strlit("admin");
        reveal_strlit("special");
        assert("moderator"@.len() == 9);
        assert("admin"@.len() == 5);
        assert("special"@.len() == 7);
    }
}

} // verus!
