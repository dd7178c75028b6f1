//! A JSON document as a tree of plain values.
//!
//! Reading and printing JSON text is left to `serde_json`; everything the
//! decoders do with a document happens on [`Json`], whose mathematical
//! model is [`JsonValue`].

use vstd::prelude::*;

verus! {

/// `serde_json::Number`, carried through without looking inside.
#[verifier::external_type_specification]
#[verifier::external_body]
pub struct ExNumber(serde_json::Number);

/// `serde_json::Value`, carried through without looking inside.
#[verifier::external_type_specification]
#[verifier::external_body]
pub struct ExValue(serde_json::Value);

/// The integer that a `serde_json::Number` holds, or `None` when it holds a
/// floating-point number.
pub uninterp spec fn number_int(n: serde_json::Number) -> Option<int>;

/// The document that a `serde_json::Value` holds.
pub uninterp spec fn value_model(v: serde_json::Value) -> JsonValue;

/// What `serde_json::from_str` makes of a text: the document, or `None`
/// where the text is not one JSON document.
pub uninterp spec fn json_parse(text: Seq<char>) -> Option<JsonValue>;

/// The compact text that `serde_json` prints for a document.
pub uninterp spec fn json_text(doc: JsonValue) -> Seq<char>;

/// The model of a JSON number: its integer value where it has one,
/// otherwise the number itself.
pub enum NumberValue {
    Int(int),
    Real(serde_json::Number),
}

/// The mathematical model of a JSON document. Object members keep the order
/// in which they were written.
pub enum JsonValue {
    Null,
    Bool(bool),
    Number(NumberValue),
    Str(Seq<char>),
    Array(Seq<JsonValue>),
    Object(Seq<MemberValue>),
}

/// The model of a member of an object: a key with a value.
pub struct MemberValue {
    pub key: Seq<char>,
    pub value: JsonValue,
}

/// The model of a number.
pub open spec fn number_view(n: serde_json::Number) -> NumberValue {
    match number_int(n) {
        Some(i) => NumberValue::Int(i),
        None => NumberValue::Real(n),
    }
}

/// A JSON document.
#[derive(Debug, PartialEq)]
pub enum Json {
    Null,
    Bool(bool),
    Number(serde_json::Number),
    Str(String),
    Array(Vec<Json>),
    Object(Vec<Member>),
}

/// A member of a JSON object: a key with its value.
#[derive(Debug, PartialEq)]
pub struct Member {
    pub key: String,
    pub value: Json,
}

impl View for Json {
    type V = JsonValue;

    open spec fn view(&self) -> JsonValue
        decreases self,
    {
        match self {
            Json::Null => JsonValue::Null,
            Json::Bool(b) => JsonValue::Bool(*b),
            Json::Number(n) => JsonValue::Number(number_view(*n)),
            Json::Str(s) => JsonValue::Str(s@),
            Json::Array(items) => JsonValue::Array(
                Seq::new(
                    items@.len(),
                    |i: int|
                        if 0 <= i < items@.len() {
                            items@[i]@
                        } else {
                            JsonValue::Null
                        },
                ),
            ),
            Json::Object(members) => JsonValue::Object(
                Seq::new(
                    members@.len(),
                    |i: int|
                        if 0 <= i < members@.len() {
                            MemberValue { key: members@[i].key@, value: members@[i].value@ }
                        } else {
                            MemberValue { key: Seq::empty(), value: JsonValue::Null }
                        },
                ),
            ),
        }
    }
}

/// The model of an array has the models of its items, in order.
pub proof fn lemma_array_view(j: Json)
    requires
        j is Array,
    ensures
        j@ is Array,
        j@->Array_0.len() == j->Array_0@.len(),
        forall|k: int|
            0 <= k < j->Array_0@.len() ==> (#[trigger] j@->Array_0[k]) == j->Array_0@[k]@,
{
}

/// The model of an object has the keys and the models of the values of its
/// members, in order.
pub proof fn lemma_object_view(j: Json)
    requires
        j is Object,
    ensures
        j@ is Object,
        j@->Object_0.len() == j->Object_0@.len(),
        forall|k: int|
            0 <= k < j->Object_0@.len() ==> (#[trigger] j@->Object_0[k]) == (MemberValue {
                key: j->Object_0@[k].key@,
                value: j->Object_0@[k].value@,
            }),
{
}

/// `serde_json::from_str` on a text, read as a `serde_json::Value`. It
/// succeeds exactly on the texts that are one JSON document and then holds
/// that document; the error is handed back as its message.
#[verifier::external_body]
fn value_of_text(text: &str) -> (r: Result<serde_json::Value, String>)
    ensures
        r is Ok <==> json_parse(text@) is Some,
        r matches Ok(v) ==> Some(value_model(v)) == json_parse(text@),
{
    match serde_json::from_str::<serde_json::Value>(text) {
        Ok(v) => Ok(v),
        Err(e) => Err(e.to_string()),
    }
}

/// Takes a `serde_json::Value` apart, variant by variant, into a [`Json`]
/// that holds the same document.
#[verifier::external_body]
fn json_of_value(v: serde_json::Value) -> (j: Json)
    ensures
        j@ == value_model(v),
{
    match v {
        serde_json::Value::Null => Json::Null,
        serde_json::Value::Bool(b) => Json::Bool(b),
        serde_json::Value::Number(n) => Json::Number(n),
        serde_json::Value::String(s) => Json::Str(s),
        serde_json::Value::Array(a) => Json::Array(a.into_iter().map(json_of_value).collect()),
        serde_json::Value::Object(m) => Json::Object(
            m.into_iter().map(|(key, x)| Member { key, value: json_of_value(x) }).collect(),
        ),
    }
}

/// Builds the `serde_json::Value` for a [`Json`], variant by variant. The
/// value prints as the document does.
#[verifier::external_body]
fn value_of_json(j: &Json) -> (v: serde_json::Value)
    ensures
        json_text(value_model(v)) == json_text(j@),
{
    match j {
        Json::Null => serde_json::Value::Null,
        Json::Bool(b) => serde_json::Value::Bool(*b),
        Json::Number(n) => serde_json::Value::Number(n.clone()),
        Json::Str(s) => serde_json::Value::String(s.clone()),
        Json::Array(a) => serde_json::Value::Array(a.iter().map(value_of_json).collect()),
        Json::Object(m) => serde_json::Value::Object(
            m.iter().map(|x| (x.key.clone(), value_of_json(&x.value))).collect(),
        ),
    }
}

/// `Display` of `serde_json::Value`: the compact text of the document.
#[verifier::external_body]
fn text_of_value(v: &serde_json::Value) -> (s: String)
    ensures
        s@ == json_text(value_model(*v)),
{
    v.to_string()
}

/// `serde_json::Number::as_i128`: the integer that the number holds, if it
/// holds one.
#[verifier::external_body]
pub(crate) fn number_integer(n: &serde_json::Number) -> (r: Option<i128>)
    ensures
        r matches Some(i) ==> number_int(*n) == Some(i as int),
        r is None ==> number_int(*n) is None,
{
    n.as_i128()
}

/// `serde_json::Number::from` on an `i64`: the number that holds it.
#[verifier::external_body]
pub(crate) fn number_of_i64(i: i64) -> (n: serde_json::Number)
    ensures
        number_int(n) == Some(i as int),
{
    serde_json::Number::from(i)
}

/// `Clone` of `serde_json::Number`: the same number.
#[verifier::external_body]
pub(crate) fn number_copy(n: &serde_json::Number) -> (r: serde_json::Number)
    ensures
        r == *n,
{
    n.clone()
}

impl Json {
    /// Prints the document as compact JSON text. An object that was read
    /// from a text never repeats a key; where one that was built by hand
    /// does, the text holds the key once.
    pub fn to_text(&self) -> (s: String)
        ensures
            s@ == json_text(self@),
    {
        let v = value_of_json(self);
        text_of_value(&v)
    }

    /// Reads one JSON document from a text.
    pub fn parse(text: &str) -> (r: Result<Json, String>)
        ensures
            r is Ok <==> json_parse(text@) is Some,
            r matches Ok(j) ==> Some(j@) == json_parse(text@),
    {
        match value_of_text(text) {
            Ok(v) => Ok(json_of_value(v)),
            Err(message) => Err(message),
        }
    }
}

/// The models of a list of documents, in order.
pub open spec fn jsons_view(docs: Seq<Json>) -> Seq<JsonValue> {
    Seq::new(docs.len(), |i: int| docs[i]@)
}

/// Copies a list of documents.
pub fn clone_items(items: &Vec<Json>) -> (r: Vec<Json>)
    ensures
        jsons_view(r@) == jsons_view(items@),
        r@.len() == items@.len(),
        forall|k: int| 0 <= k < r@.len() ==> (#[trigger] r@[k])@ == items@[k]@,
    decreases items,
{
    let mut out: Vec<Json> = Vec::new();
    let mut i: usize = 0;
    while i < items.len()
        invariant
            i <= items.len(),
            out@.len() == i,
            forall|k: int| 0 <= k < i ==> (#[trigger] out@[k])@ == items@[k]@,
        decreases items.len() - i,
    {
        out.push(items[i].clone());
        i = i + 1;
    }
    proof {
        assert(jsons_view(out@) =~= jsons_view(items@));
    }
    out
}

/// Copies the members of an object.
pub fn clone_members(members: &Vec<Member>) -> (r: Vec<Member>)
    ensures
        r@.len() == members@.len(),
        forall|k: int|
            0 <= k < r@.len() ==> (#[trigger] r@[k]).key@ == members@[k].key@ && r@[k].value@
                == members@[k].value@,
    decreases members,
{
    let mut out: Vec<Member> = Vec::new();
    let mut i: usize = 0;
    while i < members.len()
        invariant
            i <= members.len(),
            out@.len() == i,
            forall|k: int|
                0 <= k < i ==> (#[trigger] out@[k]).key@ == members@[k].key@ && out@[k].value@
                    == members@[k].value@,
        decreases members.len() - i,
    {
        proof {
            assert(decreases_to!(members => members[i as int]));
            assert(decreases_to!(members[i as int] => members[i as int].value));
        }
        out.push(Member { key: members[i].key.clone(), value: members[i].value.clone() });
        i = i + 1;
    }
    out
}

impl Clone for Json {
    /// A copy that holds the same document.
    fn clone(&self) -> (r: Json)
        ensures
            r@ == self@,
        decreases self,
    {
        match self {
            Json::Null => Json::Null,
            Json::Bool(b) => Json::Bool(*b),
            Json::Number(n) => Json::Number(number_copy(n)),
            Json::Str(s) => Json::Str(s.clone()),
            Json::Array(items) => {
                let copy = Json::Array(clone_items(items));
                proof {
                    lemma_array_view(copy);
                    lemma_array_view(*self);
                    assert(copy@->Array_0 =~= self@->Array_0);
                }
                copy
            },
            Json::Object(members) => {
                let copy = Json::Object(clone_members(members));
                proof {
                    lemma_object_view(copy);
                    lemma_object_view(*self);
                    assert(copy@->Object_0 =~= self@->Object_0);
                }
                copy
            },
        }
    }
}

} // verus!
