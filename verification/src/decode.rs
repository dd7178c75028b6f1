//! Reading the members of a JSON object as typed fields.
//!
//! A required field must be present with the right shape. An optional
//! field may be missing or `null`, and is then absent; where it is present
//! it must have the right shape.

use crate::fullname::{valid_fullname, ThingFullname};
use crate::json::{Json, JsonValue, MemberValue, NumberValue};
use crate::text::str_eq;
use vstd::prelude::*;

verus! {

/// A document does not have the shape that a decoder expects.
#[derive(Debug, Clone, Copy, PartialEq, Eq, Structural)]
pub struct DecodeError;

/// The position of the first member at or after `from` whose key is `key`,
/// or the number of members where there is none.
pub open spec fn member_index_from(
    members: Seq<MemberValue>,
    key: Seq<char>,
    from: int,
) -> int
    decreases members.len() - from,
{
    if from >= members.len() {
        members.len() as int
    } else if members[from].key == key {
        from
    } else {
        member_index_from(members, key, from + 1)
    }
}

/// The value of the first member of an object with this key.
pub open spec fn field(doc: JsonValue, key: Seq<char>) -> Option<JsonValue> {
    match doc {
        JsonValue::Object(members) => {
            let i = member_index_from(members, key, 0);
            if i < members.len() {
                Some(members[i].value)
            } else {
                None
            }
        },
        _ => None,
    }
}

/// The value of a member that is there and not `null`.
pub open spec fn present(doc: JsonValue, key: Seq<char>) -> Option<JsonValue> {
    match field(doc, key) {
        Some(JsonValue::Null) => None,
        other => other,
    }
}

/// The text of a JSON string.
pub open spec fn text_of(v: JsonValue) -> Option<Seq<char>> {
    match v {
        JsonValue::Str(s) => Some(s),
        _ => None,
    }
}

/// The truth value of a JSON boolean.
pub open spec fn bool_of(v: JsonValue) -> Option<bool> {
    match v {
        JsonValue::Bool(b) => Some(b),
        _ => None,
    }
}

/// The integer of a JSON number that holds one between `lo` and `hi`.
pub open spec fn int_of(v: JsonValue, lo: int, hi: int) -> Option<int> {
    match v {
        JsonValue::Number(NumberValue::Int(i)) => if lo <= i <= hi {
            Some(i)
        } else {
            None
        },
        _ => None,
    }
}

/// The number of a JSON number, integer or not.
pub open spec fn number_of(v: JsonValue) -> Option<NumberValue> {
    match v {
        JsonValue::Number(n) => Some(n),
        _ => None,
    }
}

/// The text of a JSON string that is a fullname.
pub open spec fn fullname_of(v: JsonValue) -> Option<Seq<char>> {
    match v {
        JsonValue::Str(s) => if valid_fullname(s) {
            Some(s)
        } else {
            None
        },
        _ => None,
    }
}

/// The items of a JSON array.
pub open spec fn items_of(v: JsonValue) -> Option<Seq<JsonValue>> {
    match v {
        JsonValue::Array(items) => Some(items),
        _ => None,
    }
}

/// A required text field.
pub open spec fn str_field(doc: JsonValue, key: Seq<char>) -> Option<Seq<char>> {
    match field(doc, key) {
        Some(v) => text_of(v),
        None => None,
    }
}

/// An optional text field: `Some(None)` where it is absent, `None` where it
/// is present and no text.
pub open spec fn opt_str_field(doc: JsonValue, key: Seq<char>) -> Option<Option<Seq<char>>> {
    match present(doc, key) {
        Some(v) => match text_of(v) {
            Some(s) => Some(Some(s)),
            None => None,
        },
        None => Some(None),
    }
}

/// A required boolean field.
pub open spec fn bool_field(doc: JsonValue, key: Seq<char>) -> Option<bool> {
    match field(doc, key) {
        Some(v) => bool_of(v),
        None => None,
    }
}

/// A boolean field that counts as `false` where it is missing.
pub open spec fn bool_field_or_false(doc: JsonValue, key: Seq<char>) -> Option<bool> {
    match field(doc, key) {
        Some(v) => bool_of(v),
        None => Some(false),
    }
}

/// An optional boolean field.
pub open spec fn opt_bool_field(doc: JsonValue, key: Seq<char>) -> Option<Option<bool>> {
    match present(doc, key) {
        Some(v) => match bool_of(v) {
            Some(b) => Some(Some(b)),
            None => None,
        },
        None => Some(None),
    }
}

/// A required integer field with a value between `lo` and `hi`.
pub open spec fn int_field(doc: JsonValue, key: Seq<char>, lo: int, hi: int) -> Option<int> {
    match field(doc, key) {
        Some(v) => int_of(v, lo, hi),
        None => None,
    }
}

/// An optional integer field with a value between `lo` and `hi`.
pub open spec fn opt_int_field(doc: JsonValue, key: Seq<char>, lo: int, hi: int) -> Option<
    Option<int>,
> {
    match present(doc, key) {
        Some(v) => match int_of(v, lo, hi) {
            Some(i) => Some(Some(i)),
            None => None,
        },
        None => Some(None),
    }
}

/// A required number field.
pub open spec fn number_field(doc: JsonValue, key: Seq<char>) -> Option<NumberValue> {
    match field(doc, key) {
        Some(v) => number_of(v),
        None => None,
    }
}

/// An optional number field.
pub open spec fn opt_number_field(doc: JsonValue, key: Seq<char>) -> Option<Option<NumberValue>> {
    match present(doc, key) {
        Some(v) => match number_of(v) {
            Some(n) => Some(Some(n)),
            None => None,
        },
        None => Some(None),
    }
}

/// A required fullname field.
pub open spec fn fullname_field(doc: JsonValue, key: Seq<char>) -> Option<Seq<char>> {
    match field(doc, key) {
        Some(v) => fullname_of(v),
        None => None,
    }
}

/// An optional fullname field.
pub open spec fn opt_fullname_field(doc: JsonValue, key: Seq<char>) -> Option<Option<Seq<char>>> {
    match present(doc, key) {
        Some(v) => match fullname_of(v) {
            Some(s) => Some(Some(s)),
            None => None,
        },
        None => Some(None),
    }
}

/// The texts of an optional text.
pub open spec fn opt_text(s: Option<String>) -> Option<Seq<char>> {
    match s {
        Some(s) => Some(s@),
        None => None,
    }
}

/// The text of an optional fullname.
pub open spec fn opt_fullname_text(s: Option<ThingFullname>) -> Option<Seq<char>> {
    match s {
        Some(s) => Some(s@),
        None => None,
    }
}

/// The model of an optional number.
pub open spec fn opt_number_view(n: Option<serde_json::Number>) -> Option<NumberValue> {
    match n {
        Some(n) => Some(crate::json::number_view(n)),
        None => None,
    }
}

/// The integer of an optional 32-bit integer.
pub open spec fn opt_i32_int(n: Option<i32>) -> Option<int> {
    match n {
        Some(n) => Some(n as int),
        None => None,
    }
}

impl Json {
    /// The value of the first member with this key, where the document is
    /// an object that has one.
    pub fn get(&self, key: &str) -> (r: Option<&Json>)
        ensures
            r is Some <==> field(self@, key@) is Some,
            r matches Some(j) ==> field(self@, key@) == Some(j@),
    {
        match self {
            Json::Object(members) => {
                let ghost view = self@->Object_0;
                proof {
                    crate::json::lemma_object_view(*self);
                }
                let mut i: usize = 0;
                while i < members.len()
                    invariant
                        i <= members.len(),
                        self@ == JsonValue::Object(view),
                        view.len() == members@.len(),
                        forall|k: int|
                            0 <= k < members@.len() ==> (#[trigger] view[k]) == (MemberValue {
                                key: members@[k].key@,
                                value: members@[k].value@,
                            }),
                        member_index_from(view, key@, 0) == member_index_from(view, key@, i as int),
                    decreases members.len() - i,
                {
                    if str_eq(members[i].key.as_str(), key) {
                        return Some(&members[i].value);
                    }
                    i = i + 1;
                }
                None
            },
            _ => None,
        }
    }

    /// The value of the member with this key, where it is there and not
    /// `null`.
    pub fn get_present(&self, key: &str) -> (r: Option<&Json>)
        ensures
            r is Some <==> present(self@, key@) is Some,
            r matches Some(j) ==> present(self@, key@) == Some(j@),
    {
        match self.get(key) {
            Some(Json::Null) => None,
            other => other,
        }
    }

    /// The text, where the document is a string.
    pub fn as_str(&self) -> (r: Option<&str>)
        ensures
            r is Some <==> text_of(self@) is Some,
            r matches Some(s) ==> text_of(self@) == Some(s@),
    {
        match self {
            Json::Str(s) => Some(s.as_str()),
            _ => None,
        }
    }

    /// The truth value, where the document is a boolean.
    pub fn as_bool(&self) -> (r: Option<bool>)
        ensures
            r == bool_of(self@),
    {
        match self {
            Json::Bool(b) => Some(*b),
            _ => None,
        }
    }

    /// The integer, where the document is a number that holds one.
    pub fn as_int(&self) -> (r: Option<i128>)
        ensures
            r is Some <==> self@ matches JsonValue::Number(NumberValue::Int(_)),
            r matches Some(i) ==> self@ == JsonValue::Number(NumberValue::Int(i as int)),
    {
        match self {
            Json::Number(n) => crate::json::number_integer(n),
            _ => None,
        }
    }

    /// The number, where the document is one.
    pub fn as_number(&self) -> (r: Option<serde_json::Number>)
        ensures
            r is Some <==> number_of(self@) is Some,
            r matches Some(n) ==> number_of(self@) == Some(crate::json::number_view(n)),
    {
        match self {
            Json::Number(n) => Some(crate::json::number_copy(n)),
            _ => None,
        }
    }

    /// The items, where the document is an array.
    pub fn as_array(&self) -> (r: Option<&Vec<Json>>)
        ensures
            r is Some <==> items_of(self@) is Some,
            r matches Some(items) ==> {
                &&& items_of(self@) matches Some(models)
                &&& models.len() == items@.len()
                &&& forall|i: int| 0 <= i < items@.len() ==> models[i] == (#[trigger] items@[i])@
            },
    {
        match self {
            Json::Array(items) => {
                proof {
                    crate::json::lemma_array_view(*self);
                }
                Some(items)
            },
            _ => None,
        }
    }
}

/// Reads a required text field.
pub fn req_str(doc: &Json, key: &str) -> (r: Result<String, DecodeError>)
    ensures
        r is Ok <==> str_field(doc@, key@) is Some,
        r matches Ok(s) ==> str_field(doc@, key@) == Some(s@),
{
    match doc.get(key) {
        Some(v) => match v.as_str() {
            Some(s) => Ok(s.to_owned()),
            None => Err(DecodeError),
        },
        None => Err(DecodeError),
    }
}

/// Reads an optional text field.
pub fn opt_str(doc: &Json, key: &str) -> (r: Result<Option<String>, DecodeError>)
    ensures
        r is Ok <==> opt_str_field(doc@, key@) is Some,
        r matches Ok(s) ==> opt_str_field(doc@, key@) == Some(opt_text(s)),
{
    match doc.get_present(key) {
        Some(v) => match v.as_str() {
            Some(s) => Ok(Some(s.to_owned())),
            None => Err(DecodeError),
        },
        None => Ok(None),
    }
}

/// Reads a required boolean field.
pub fn req_bool(doc: &Json, key: &str) -> (r: Result<bool, DecodeError>)
    ensures
        r is Ok <==> bool_field(doc@, key@) is Some,
        r matches Ok(b) ==> bool_field(doc@, key@) == Some(b),
{
    match doc.get(key) {
        Some(v) => match v.as_bool() {
            Some(b) => Ok(b),
            None => Err(DecodeError),
        },
        None => Err(DecodeError),
    }
}

/// Reads a boolean field that counts as `false` where it is missing.
pub fn bool_or_false(doc: &Json, key: &str) -> (r: Result<bool, DecodeError>)
    ensures
        r is Ok <==> bool_field_or_false(doc@, key@) is Some,
        r matches Ok(b) ==> bool_field_or_false(doc@, key@) == Some(b),
{
    match doc.get(key) {
        Some(v) => match v.as_bool() {
            Some(b) => Ok(b),
            None => Err(DecodeError),
        },
        None => Ok(false),
    }
}

/// Reads an optional boolean field.
pub fn opt_bool(doc: &Json, key: &str) -> (r: Result<Option<bool>, DecodeError>)
    ensures
        r is Ok <==> opt_bool_field(doc@, key@) is Some,
        r matches Ok(b) ==> opt_bool_field(doc@, key@) == Some(b),
{
    match doc.get_present(key) {
        Some(v) => match v.as_bool() {
            Some(b) => Ok(Some(b)),
            None => Err(DecodeError),
        },
        None => Ok(None),
    }
}

/// The value of a member is smaller than the object, so that a definition
/// may descend into it.
pub proof fn lemma_field_decreases(doc: JsonValue, key: Seq<char>)
    requires
        field(doc, key) is Some,
    ensures
        decreases_to!(doc => field(doc, key)->0),
{
    let members = doc->Object_0;
    lemma_member_index(members, key, 0);
    let i = member_index_from(members, key, 0);
    assert(decreases_to!(doc => members));
    assert(decreases_to!(members => members[i]));
    assert(decreases_to!(members[i] => members[i].value));
}

/// The position of a member lies between where the search starts and the
/// number of members.
pub proof fn lemma_member_index(members: Seq<MemberValue>, key: Seq<char>, from: int)
    requires
        0 <= from,
    ensures
        from <= member_index_from(members, key, from) || member_index_from(members, key, from)
            == members.len(),
        member_index_from(members, key, from) <= members.len() || from > members.len(),
        0 <= member_index_from(members, key, from),
    decreases members.len() - from,
{
    if from < members.len() && members[from].key != key {
        lemma_member_index(members, key, from + 1);
    }
}

/// The member at a position is the one that a lookup of its key finds,
/// where no earlier member has that key.
pub proof fn lemma_field_at(members: Seq<MemberValue>, key: Seq<char>, at: int)
    requires
        0 <= at < members.len(),
        members[at].key == key,
        forall|k: int| 0 <= k < at ==> (#[trigger] members[k]).key != key,
    ensures
        field(JsonValue::Object(members), key) == Some(members[at].value),
{
    lemma_member_index_skips(members, key, 0, at);
}

/// A lookup that starts before a position skips the members that do not
/// have the key.
pub proof fn lemma_member_index_skips(
    members: Seq<MemberValue>,
    key: Seq<char>,
    from: int,
    at: int,
)
    requires
        0 <= from <= at < members.len(),
        members[at].key == key,
        forall|k: int| from <= k < at ==> (#[trigger] members[k]).key != key,
    ensures
        member_index_from(members, key, from) == at,
    decreases at - from,
{
    if from < at {
        lemma_member_index_skips(members, key, from + 1, at);
    }
}

/// An item of an array is smaller than the array.
pub proof fn lemma_item_decreases(doc: JsonValue, i: int)
    requires
        items_of(doc) matches Some(items) && 0 <= i < items.len(),
    ensures
        decreases_to!(doc => items_of(doc)->0[i]),
{
    let items = doc->Array_0;
    assert(decreases_to!(doc => items));
    assert(decreases_to!(items => items[i]));
}

fn int_in(v: &Json, lo: i128, hi: i128) -> (r: Option<i128>)
    ensures
        r is Some <==> int_of(v@, lo as int, hi as int) is Some,
        r matches Some(i) ==> int_of(v@, lo as int, hi as int) == Some(i as int),
{
    match v.as_int() {
        Some(i) => if lo <= i && i <= hi {
            Some(i)
        } else {
            None
        },
        None => None,
    }
}

/// Reads a required 32-bit integer field.
pub fn req_i32(doc: &Json, key: &str) -> (r: Result<i32, DecodeError>)
    ensures
        r is Ok <==> int_field(doc@, key@, i32::MIN as int, i32::MAX as int) is Some,
        r matches Ok(i) ==> int_field(doc@, key@, i32::MIN as int, i32::MAX as int) == Some(
            i as int,
        ),
{
    match doc.get(key) {
        Some(v) => match int_in(v, -2147483648, 2147483647) {
            Some(i) => Ok(i as i32),
            None => Err(DecodeError),
        },
        None => Err(DecodeError),
    }
}

/// Reads an optional 32-bit integer field.
pub fn opt_i32(doc: &Json, key: &str) -> (r: Result<Option<i32>, DecodeError>)
    ensures
        r is Ok <==> opt_int_field(doc@, key@, i32::MIN as int, i32::MAX as int) is Some,
        r matches Ok(i) ==> opt_int_field(doc@, key@, i32::MIN as int, i32::MAX as int) == Some(
            opt_i32_int(i),
        ),
{
    match doc.get_present(key) {
        Some(v) => match int_in(v, -2147483648, 2147483647) {
            Some(i) => Ok(Some(i as i32)),
            None => Err(DecodeError),
        },
        None => Ok(None),
    }
}

/// Reads a required unsigned 64-bit integer field.
pub fn req_u64(doc: &Json, key: &str) -> (r: Result<u64, DecodeError>)
    ensures
        r is Ok <==> int_field(doc@, key@, 0, u64::MAX as int) is Some,
        r matches Ok(i) ==> int_field(doc@, key@, 0, u64::MAX as int) == Some(i as int),
{
    match doc.get(key) {
        Some(v) => match int_in(v, 0, 18446744073709551615) {
            Some(i) => Ok(i as u64),
            None => Err(DecodeError),
        },
        None => Err(DecodeError),
    }
}

/// Reads a required number field.
pub fn req_number(doc: &Json, key: &str) -> (r: Result<serde_json::Number, DecodeError>)
    ensures
        r is Ok <==> number_field(doc@, key@) is Some,
        r matches Ok(n) ==> number_field(doc@, key@) == Some(crate::json::number_view(n)),
{
    match doc.get(key) {
        Some(v) => match v.as_number() {
            Some(n) => Ok(n),
            None => Err(DecodeError),
        },
        None => Err(DecodeError),
    }
}

/// Reads an optional number field.
pub fn opt_number(doc: &Json, key: &str) -> (r: Result<Option<serde_json::Number>, DecodeError>)
    ensures
        r is Ok <==> opt_number_field(doc@, key@) is Some,
        r matches Ok(n) ==> opt_number_field(doc@, key@) == Some(opt_number_view(n)),
{
    match doc.get_present(key) {
        Some(v) => match v.as_number() {
            Some(n) => Ok(Some(n)),
            None => Err(DecodeError),
        },
        None => Ok(None),
    }
}

fn fullname_in(v: &Json) -> (r: Option<ThingFullname>)
    ensures
        r is Some <==> fullname_of(v@) is Some,
        r matches Some(f) ==> fullname_of(v@) == Some(f@),
{
    match v.as_str() {
        Some(s) => match ThingFullname::try_from(s) {
            Ok(f) => Some(f),
            Err(_) => None,
        },
        None => None,
    }
}

/// Reads a required fullname field.
pub fn req_fullname(doc: &Json, key: &str) -> (r: Result<ThingFullname, DecodeError>)
    ensures
        r is Ok <==> fullname_field(doc@, key@) is Some,
        r matches Ok(f) ==> fullname_field(doc@, key@) == Some(f@),
{
    match doc.get(key) {
        Some(v) => match fullname_in(v) {
            Some(f) => Ok(f),
            None => Err(DecodeError),
        },
        None => Err(DecodeError),
    }
}

/// Reads an optional fullname field.
pub fn opt_fullname(doc: &Json, key: &str) -> (r: Result<Option<ThingFullname>, DecodeError>)
    ensures
        r is Ok <==> opt_fullname_field(doc@, key@) is Some,
        r matches Ok(f) ==> opt_fullname_field(doc@, key@) == Some(opt_fullname_text(f)),
{
    match doc.get_present(key) {
        Some(v) => match fullname_in(v) {
            Some(f) => Ok(Some(f)),
            None => Err(DecodeError),
        },
        None => Ok(None),
    }
}

/// A value that is read from a JSON document.
pub trait Decode: Sized {
    /// Whether a document has the shape of such a value.
    spec fn decodes(doc: JsonValue) -> bool;

    /// Whether the value holds what the document says.
    spec fn agrees(&self, doc: JsonValue) -> bool;

    /// Reads a value from a document.
    fn decode(doc: &Json) -> (r: Result<Self, DecodeError>)
        ensures
            r is Ok <==> Self::decodes(doc@),
            r matches Ok(v) ==> v.agrees(doc@),
    ;
}

/// Whether a document is an array of values of one type.
pub open spec fn items_decode<T: Decode>(doc: JsonValue) -> bool {
    &&& items_of(doc) matches Some(items)
    &&& forall|i: int| 0 <= i < items.len() ==> T::decodes(#[trigger] items[i])
}

/// Whether a list of values holds, item for item, what an array says.
pub open spec fn items_agree<T: Decode>(values: Seq<T>, doc: JsonValue) -> bool {
    &&& items_of(doc) matches Some(items)
    &&& items.len() == values.len()
    &&& forall|i: int| 0 <= i < values.len() ==> (#[trigger] values[i]).agrees(items[i])
}

/// Reads an array of values of one type.
pub fn decode_items<T: Decode>(doc: &Json) -> (r: Result<Vec<T>, DecodeError>)
    ensures
        r is Ok <==> items_decode::<T>(doc@),
        r matches Ok(values) ==> items_agree(values@, doc@),
{
    let items = match doc.as_array() {
        Some(items) => items,
        None => {
            return Err(DecodeError);
        },
    };
    let ghost models = items_of(doc@)->0;
    let mut values: Vec<T> = Vec::new();
    let mut i: usize = 0;
    while i < items.len()
        invariant
            i <= items.len(),
            values@.len() == i,
            items_of(doc@) == Some(models),
            models.len() == items@.len(),
            forall|k: int| 0 <= k < items@.len() ==> models[k] == (#[trigger] items@[k])@,
            forall|k: int| 0 <= k < i ==> T::decodes(#[trigger] models[k]),
            forall|k: int| 0 <= k < i ==> (#[trigger] values@[k]).agrees(models[k]),
        decreases items.len() - i,
    {
        match T::decode(&items[i]) {
            Ok(value) => {
                values.push(value);
            },
            Err(e) => {
                assert(!T::decodes(models[i as int]));
                assert(items_of(doc@)->0[i as int] == models[i as int]);
                return Err(e);
            },
        }
        i = i + 1;
    }
    Ok(values)
}

/// Whether the member `key` is there and has the shape of a `T`.
pub open spec fn item_field_decodes<T: Decode>(doc: JsonValue, key: Seq<char>) -> bool {
    field(doc, key) matches Some(v) && T::decodes(v)
}

/// Whether a value holds what the member `key` says.
pub open spec fn item_field_agrees<T: Decode>(value: T, doc: JsonValue, key: Seq<char>) -> bool {
    field(doc, key) matches Some(v) && value.agrees(v)
}

/// Whether the member `key` is absent or has the shape of a `T`.
pub open spec fn opt_item_field_decodes<T: Decode>(doc: JsonValue, key: Seq<char>) -> bool {
    present(doc, key) matches Some(v) ==> T::decodes(v)
}

/// Whether an optional value holds what the member `key` says.
pub open spec fn opt_item_field_agrees<T: Decode>(
    value: Option<T>,
    doc: JsonValue,
    key: Seq<char>,
) -> bool {
    match present(doc, key) {
        Some(v) => value is Some && value->0.agrees(v),
        None => value is None,
    }
}

/// Whether the member `key` is there and is an array of `T`.
pub open spec fn items_field_decode<T: Decode>(doc: JsonValue, key: Seq<char>) -> bool {
    field(doc, key) matches Some(v) && items_decode::<T>(v)
}

/// Whether a list of values holds what the member `key` says.
pub open spec fn items_field_agree<T: Decode>(values: Seq<T>, doc: JsonValue, key: Seq<char>)
    -> bool {
    field(doc, key) matches Some(v) && items_agree(values, v)
}

/// Reads a required member as a `T`.
pub fn req_item<T: Decode>(doc: &Json, key: &str) -> (r: Result<T, DecodeError>)
    ensures
        r is Ok <==> item_field_decodes::<T>(doc@, key@),
        r matches Ok(v) ==> item_field_agrees(v, doc@, key@),
{
    match doc.get(key) {
        Some(v) => T::decode(v),
        None => Err(DecodeError),
    }
}

/// Reads an optional member as a `T`.
pub fn opt_item<T: Decode>(doc: &Json, key: &str) -> (r: Result<Option<T>, DecodeError>)
    ensures
        r is Ok <==> opt_item_field_decodes::<T>(doc@, key@),
        r matches Ok(v) ==> opt_item_field_agrees(v, doc@, key@),
{
    match doc.get_present(key) {
        Some(v) => match T::decode(v) {
            Ok(value) => Ok(Some(value)),
            Err(e) => Err(e),
        },
        None => Ok(None),
    }
}

/// Reads a required member as an array of `T`.
pub fn req_items<T: Decode>(doc: &Json, key: &str) -> (r: Result<Vec<T>, DecodeError>)
    ensures
        r is Ok <==> items_field_decode::<T>(doc@, key@),
        r matches Ok(v) ==> items_field_agree(v@, doc@, key@),
{
    match doc.get(key) {
        Some(v) => decode_items(v),
        None => Err(DecodeError),
    }
}

/// The document for an optional text: the string, or `null`.
pub open spec fn opt_str_value(s: Option<String>) -> JsonValue {
    match s {
        Some(s) => JsonValue::Str(s@),
        None => JsonValue::Null,
    }
}

/// The document for an optional number: the number, or `null`.
pub open spec fn opt_number_value(n: Option<serde_json::Number>) -> JsonValue {
    match n {
        Some(n) => JsonValue::Number(crate::json::number_view(n)),
        None => JsonValue::Null,
    }
}

/// The document for an optional fullname: the string, or `null`.
pub open spec fn opt_fullname_value(s: Option<ThingFullname>) -> JsonValue {
    match s {
        Some(s) => JsonValue::Str(s@),
        None => JsonValue::Null,
    }
}

/// The document for an optional integer: the number, or `null`.
pub open spec fn opt_i32_value(n: Option<i32>) -> JsonValue {
    match n {
        Some(n) => JsonValue::Number(NumberValue::Int(n as int)),
        None => JsonValue::Null,
    }
}

/// The document for an optional truth value: the boolean, or `null`.
pub open spec fn opt_bool_value(b: Option<bool>) -> JsonValue {
    match b {
        Some(b) => JsonValue::Bool(b),
        None => JsonValue::Null,
    }
}

/// Writes an optional fullname.
pub fn encode_opt_fullname(s: &Option<ThingFullname>) -> (j: Json)
    ensures
        j@ == opt_fullname_value(*s),
{
    match s {
        Some(s) => Json::Str(s.full().to_owned()),
        None => Json::Null,
    }
}

/// Writes an optional integer.
pub fn encode_opt_i32(n: Option<i32>) -> (j: Json)
    ensures
        j@ == opt_i32_value(n),
{
    match n {
        Some(n) => Json::Number(crate::json::number_of_i64(n as i64)),
        None => Json::Null,
    }
}

/// Writes an optional truth value.
pub fn encode_opt_bool(b: Option<bool>) -> (j: Json)
    ensures
        j@ == opt_bool_value(b),
{
    match b {
        Some(b) => Json::Bool(b),
        None => Json::Null,
    }
}

/// Writes an integer.
pub fn encode_i32(n: i32) -> (j: Json)
    ensures
        j@ == JsonValue::Number(NumberValue::Int(n as int)),
{
    Json::Number(crate::json::number_of_i64(n as i64))
}

/// Writes a text.
pub fn encode_str(s: &str) -> (j: Json)
    ensures
        j@ == JsonValue::Str(s@),
{
    Json::Str(s.to_owned())
}

/// Writes a number.
pub fn encode_number(n: &serde_json::Number) -> (j: Json)
    ensures
        j@ == JsonValue::Number(crate::json::number_view(*n)),
{
    Json::Number(crate::json::number_copy(n))
}

/// Writes an optional text.
pub fn encode_opt_str(s: &Option<String>) -> (j: Json)
    ensures
        j@ == opt_str_value(*s),
{
    match s {
        Some(s) => Json::Str(s.clone()),
        None => Json::Null,
    }
}

/// Writes an optional number.
pub fn encode_opt_number(n: &Option<serde_json::Number>) -> (j: Json)
    ensures
        j@ == opt_number_value(*n),
{
    match n {
        Some(n) => Json::Number(crate::json::number_copy(n)),
        None => Json::Null,
    }
}

/// A member with this key and value.
pub fn member(key: &str, value: Json) -> (m: crate::json::Member)
    ensures
        m.key@ == key@,
        m.value == value,
{
    crate::json::Member { key: key.to_owned(), value }
}

/// The model of an optional document.
pub open spec fn opt_json_view(doc: Option<Json>) -> Option<JsonValue> {
    match doc {
        Some(doc) => Some(doc@),
        None => None,
    }
}

/// The models of an optional list of documents.
pub open spec fn opt_jsons_view(docs: Option<Vec<Json>>) -> Option<Seq<JsonValue>> {
    match docs {
        Some(docs) => Some(crate::json::jsons_view(docs@)),
        None => None,
    }
}

/// A required field that is an array of any documents.
pub open spec fn values_field(doc: JsonValue, key: Seq<char>) -> Option<Seq<JsonValue>> {
    match field(doc, key) {
        Some(v) => items_of(v),
        None => None,
    }
}

/// An optional field that is an array of any documents.
pub open spec fn opt_values_field(doc: JsonValue, key: Seq<char>) -> Option<
    Option<Seq<JsonValue>>,
> {
    match present(doc, key) {
        Some(v) => match items_of(v) {
            Some(items) => Some(Some(items)),
            None => None,
        },
        None => Some(None),
    }
}

/// Reads a required field of any shape.
pub fn req_json(doc: &Json, key: &str) -> (r: Result<Json, DecodeError>)
    ensures
        r is Ok <==> field(doc@, key@) is Some,
        r matches Ok(v) ==> field(doc@, key@) == Some(v@),
{
    match doc.get(key) {
        Some(v) => Ok(v.clone()),
        None => Err(DecodeError),
    }
}

/// Reads an optional field of any shape.
pub fn opt_json(doc: &Json, key: &str) -> (r: Option<Json>)
    ensures
        opt_json_view(r) == present(doc@, key@),
{
    match doc.get_present(key) {
        Some(v) => Some(v.clone()),
        None => None,
    }
}

fn values_in(v: &Json) -> (r: Option<Vec<Json>>)
    ensures
        opt_jsons_view(r) == items_of(v@),
{
    match v.as_array() {
        Some(items) => {
            let copy = crate::json::clone_items(items);
            proof {
                assert(crate::json::jsons_view(items@) =~= items_of(v@)->0);
            }
            Some(copy)
        },
        None => None,
    }
}

/// Reads a required field that is an array of any documents.
pub fn req_values(doc: &Json, key: &str) -> (r: Result<Vec<Json>, DecodeError>)
    ensures
        r is Ok <==> values_field(doc@, key@) is Some,
        r matches Ok(v) ==> values_field(doc@, key@) == Some(crate::json::jsons_view(v@)),
{
    match doc.get(key) {
        Some(v) => match values_in(v) {
            Some(items) => Ok(items),
            None => Err(DecodeError),
        },
        None => Err(DecodeError),
    }
}

/// Reads an optional field that is an array of any documents.
pub fn opt_values(doc: &Json, key: &str) -> (r: Result<Option<Vec<Json>>, DecodeError>)
    ensures
        r is Ok <==> opt_values_field(doc@, key@) is Some,
        r matches Ok(v) ==> opt_values_field(doc@, key@) == Some(opt_jsons_view(v)),
{
    match doc.get_present(key) {
        Some(v) => match values_in(v) {
            Some(items) => Ok(Some(items)),
            None => Err(DecodeError),
        },
        None => Ok(None),
    }
}

/// The document for an optional document: itself, or `null`.
pub open spec fn opt_json_value(doc: Option<Json>) -> JsonValue {
    match doc {
        Some(doc) => doc@,
        None => JsonValue::Null,
    }
}

/// The document for an optional list of documents: the array, or `null`.
pub open spec fn opt_values_value(docs: Option<Vec<Json>>) -> JsonValue {
    match docs {
        Some(docs) => JsonValue::Array(crate::json::jsons_view(docs@)),
        None => JsonValue::Null,
    }
}

/// Writes a list of documents as an array.
pub fn encode_values(docs: &Vec<Json>) -> (j: Json)
    ensures
        j@ == JsonValue::Array(crate::json::jsons_view(docs@)),
{
    let j = Json::Array(crate::json::clone_items(docs));
    proof {
        crate::json::lemma_array_view(j);
        assert(j@->Array_0 =~= crate::json::jsons_view(docs@));
    }
    j
}

/// Writes an optional document.
pub fn encode_opt_json(doc: &Option<Json>) -> (j: Json)
    ensures
        j@ == opt_json_value(*doc),
{
    match doc {
        Some(doc) => doc.clone(),
        None => Json::Null,
    }
}

/// Writes an optional list of documents.
pub fn encode_opt_values(docs: &Option<Vec<Json>>) -> (j: Json)
    ensures
        j@ == opt_values_value(*docs),
{
    match docs {
        Some(docs) => encode_values(docs),
        None => Json::Null,
    }
}

/// Whether no two members have the same key.
pub open spec fn distinct_keys(members: Seq<MemberValue>) -> bool {
    forall|i: int, j: int|
        0 <= i < j < members.len() ==> (#[trigger] members[i]).key != (#[trigger] members[j]).key
}

/// Says whether a document is an object of which no two members have the
/// same key.
pub fn has_distinct_keys(doc: &Json) -> (r: bool)
    ensures
        r == (doc@ matches JsonValue::Object(members) && distinct_keys(members)),
{
    let members = match doc {
        Json::Object(members) => members,
        _ => {
            return false;
        },
    };
    proof {
        crate::json::lemma_object_view(*doc);
    }
    let ghost models = doc@->Object_0;
    let mut j: usize = 0;
    while j < members.len()
        invariant
            j <= members.len(),
            doc@ == JsonValue::Object(models),
            models.len() == members@.len(),
            forall|k: int|
                0 <= k < members@.len() ==> (#[trigger] models[k]) == (MemberValue {
                    key: members@[k].key@,
                    value: members@[k].value@,
                }),
            forall|a: int, b: int|
                0 <= a < b < j ==> (#[trigger] models[a]).key != (#[trigger] models[b]).key,
        decreases members.len() - j,
    {
        let mut i: usize = 0;
        while i < j
            invariant
                i <= j < members.len(),
                doc@ == JsonValue::Object(models),
                models.len() == members@.len(),
                forall|k: int|
                    0 <= k < members@.len() ==> (#[trigger] models[k]) == (MemberValue {
                        key: members@[k].key@,
                        value: members@[k].value@,
                    }),
                forall|a: int| 0 <= a < i ==> (#[trigger] models[a]).key != models[j as int].key,
            decreases j - i,
        {
            if str_eq(members[i].key.as_str(), members[j].key.as_str()) {
                proof {
                    assert(models[i as int].key == models[j as int].key);
                }
                return false;
            }
            i = i + 1;
        }
        j = j + 1;
    }
    true
}

} // verus!
