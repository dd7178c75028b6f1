//! The envelopes that wrap what the API returns: things, listings and the
//! answer to a post.

use crate::decode::{item_field_agrees, item_field_decodes, items_field_agree,
    items_field_decode, req_item, req_items, Decode};
use crate::decode::{field, items_of, opt_fullname, opt_fullname_field, opt_fullname_text, opt_i32,
    opt_i32_int, opt_int_field, opt_str, opt_str_field, opt_text, present, str_field, text_of,
    DecodeError};
use crate::fullname::ThingFullname;
use crate::json::{Json, JsonValue};
use vstd::prelude::*;

verus! {

/// The envelope of every thing: what kind it is, and its data.
#[derive(Debug, PartialEq)]
pub struct BasicThing<T> {
    /// The kind of the thing, such as `t1` or `Listing`.
    pub kind: Option<String>,
    /// The data of the thing.
    pub data: T,
}

/// A page of things, with the fullnames that lead to the pages before and
/// after it.
#[derive(Debug, PartialEq)]
pub struct Listing<T> {
    /// The modhash.
    pub modhash: Option<String>,
    /// The number of children.
    pub dist: Option<i32>,
    /// The fullname after which the next page starts.
    pub after: Option<ThingFullname>,
    /// The fullname before which the previous page ends.
    pub before: Option<ThingFullname>,
    /// The things of this page.
    pub children: Vec<T>,
}

/// A page of things whose cursors are no fullnames.
#[derive(Debug, PartialEq)]
pub struct ListingNotFullname<T> {
    /// The modhash.
    pub modhash: Option<String>,
    /// The number of children.
    pub dist: Option<i32>,
    /// The id after which the next page starts.
    pub after: Option<String>,
    /// The id before which the previous page ends.
    pub before: Option<String>,
    /// The things of this page.
    pub children: Vec<T>,
}

/// A listing whose children are themselves wrapped as things.
pub type BasicListing<T> = BasicThing<Listing<BasicThing<T>>>;

/// A listing wrapped as a thing, whose children are not.
pub type OuterBasicListing<T> = BasicThing<Listing<T>>;

/// What stands in a listing beside its children.
#[derive(Debug, PartialEq)]
pub struct ListingHead {
    /// The modhash.
    pub modhash: Option<String>,
    /// The number of children.
    pub dist: Option<i32>,
    /// The fullname after which the next page starts.
    pub after: Option<ThingFullname>,
    /// The fullname before which the previous page ends.
    pub before: Option<ThingFullname>,
}

/// The data of a thing: the member `data` of its envelope, where the
/// envelope is an object whose `kind`, if it has one, is a string.
pub open spec fn thing_data(doc: JsonValue) -> Option<JsonValue> {
    if opt_str_field(doc, "kind"@) is Some {
        field(doc, "data"@)
    } else {
        None
    }
}

/// The kind of a thing.
pub open spec fn thing_kind(doc: JsonValue) -> Option<Seq<char>> {
    match opt_str_field(doc, "kind"@) {
        Some(kind) => kind,
        None => None,
    }
}

/// The children of a listing: the items of the member `children`, where
/// the other members of the listing have their shapes.
pub open spec fn listing_children(data: JsonValue) -> Option<Seq<JsonValue>> {
    if opt_str_field(data, "modhash"@) is Some && opt_int_field(
        data,
        "dist"@,
        i32::MIN as int,
        i32::MAX as int,
    ) is Some && opt_fullname_field(data, "after"@) is Some && opt_fullname_field(
        data,
        "before"@,
    ) is Some {
        match field(data, "children"@) {
            Some(children) => items_of(children),
            None => None,
        }
    } else {
        None
    }
}

impl ListingHead {
    /// Whether the head holds what the listing says beside its children.
    pub open spec fn agrees(&self, data: JsonValue) -> bool {
        &&& opt_str_field(data, "modhash"@) == Some(opt_text(self.modhash))
        &&& opt_int_field(data, "dist"@, i32::MIN as int, i32::MAX as int) == Some(
            opt_i32_int(self.dist),
        )
        &&& opt_fullname_field(data, "after"@) == Some(opt_fullname_text(self.after))
        &&& opt_fullname_field(data, "before"@) == Some(opt_fullname_text(self.before))
    }
}

/// Opens the envelope of a thing: its kind and its data.
pub fn open_thing(doc: &Json) -> (r: Result<(Option<String>, &Json), DecodeError>)
    ensures
        r is Ok <==> thing_data(doc@) is Some,
        r matches Ok(parts) ==> {
            &&& thing_data(doc@) == Some(parts.1@)
            &&& thing_kind(doc@) == opt_text(parts.0)
        },
{
    let kind = match opt_str(doc, "kind") {
        Ok(kind) => kind,
        Err(e) => {
            return Err(e);
        },
    };
    match doc.get("data") {
        Some(data) => Ok((kind, data)),
        None => Err(DecodeError),
    }
}

/// Opens a listing: what stands beside the children, and the children as
/// documents.
pub fn open_listing(data: &Json) -> (r: Result<(ListingHead, &Vec<Json>), DecodeError>)
    ensures
        r is Ok <==> listing_children(data@) is Some,
        r matches Ok(parts) ==> {
            &&& parts.0.agrees(data@)
            &&& listing_children(data@) matches Some(children)
            &&& children.len() == parts.1@.len()
            &&& forall|i: int|
                0 <= i < parts.1@.len() ==> children[i] == (#[trigger] parts.1@[i])@
        },
{
    let modhash = match opt_str(data, "modhash") {
        Ok(v) => v,
        Err(e) => {
            return Err(e);
        },
    };
    let dist = match opt_i32(data, "dist") {
        Ok(v) => v,
        Err(e) => {
            return Err(e);
        },
    };
    let after = match opt_fullname(data, "after") {
        Ok(v) => v,
        Err(e) => {
            return Err(e);
        },
    };
    let before = match opt_fullname(data, "before") {
        Ok(v) => v,
        Err(e) => {
            return Err(e);
        },
    };
    let children = match data.get("children") {
        Some(children) => match children.as_array() {
            Some(items) => items,
            None => {
                return Err(DecodeError);
            },
        },
        None => {
            return Err(DecodeError);
        },
    };
    Ok((ListingHead { modhash, dist, after, before }, children))
}

/// One error that the API reports: a code, a message and, where the error
/// is about one, the name of a form field.
#[derive(Debug, PartialEq)]
pub struct ApiError {
    /// The code, such as `RATELIMIT`.
    pub code: String,
    /// The message for a reader.
    pub message: String,
    /// The form field that the error is about.
    pub field: Option<String>,
}

/// The field of an error: the third item, where there is one that is not
/// `null`.
pub open spec fn error_field(items: Seq<JsonValue>) -> Option<JsonValue> {
    if items.len() == 3 && items[2] != JsonValue::Null {
        Some(items[2])
    } else {
        None
    }
}

impl Decode for ApiError {
    /// Whether a document is an error: an array of a code and a message,
    /// both strings, and at most one item more, a string or `null`.
    open spec fn decodes(doc: JsonValue) -> bool {
        &&& items_of(doc) matches Some(items)
        &&& 2 <= items.len() <= 3
        &&& text_of(items[0]) is Some
        &&& text_of(items[1]) is Some
        &&& error_field(items) matches Some(f) ==> text_of(f) is Some
    }

    /// Whether the error holds what the document says.
    open spec fn agrees(&self, doc: JsonValue) -> bool {
        &&& items_of(doc) matches Some(items)
        &&& text_of(items[0]) == Some(self.code@)
        &&& text_of(items[1]) == Some(self.message@)
        &&& match error_field(items) {
            Some(f) => self.field is Some && text_of(f) == Some(self.field->0@),
            None => self.field is None,
        }
    }

    /// Reads an error from a document.
    fn decode(doc: &Json) -> (r: Result<Self, DecodeError>) {
        let items = match doc.as_array() {
            Some(items) => items,
            None => {
                return Err(DecodeError);
            },
        };
        if items.len() < 2 || items.len() > 3 {
            return Err(DecodeError);
        }
        let code = match items[0].as_str() {
            Some(s) => s.to_owned(),
            None => {
                return Err(DecodeError);
            },
        };
        let message = match items[1].as_str() {
            Some(s) => s.to_owned(),
            None => {
                return Err(DecodeError);
            },
        };
        let field = if items.len() == 3 {
            match &items[2] {
                Json::Null => None,
                other => match other.as_str() {
                    Some(s) => Some(s.to_owned()),
                    None => {
                        return Err(DecodeError);
                    },
                },
            }
        } else {
            None
        };
        Ok(ApiError { code, message, field })
    }
}

/// What the answer to a post holds.
#[derive(Debug, PartialEq)]
pub enum PostOutcome<'a> {
    /// The API reports errors; none of them is left out.
    Errors(Vec<ApiError>),
    /// The API reports no error, and this is the data.
    Data(&'a Json),
}

/// The errors of the answer to a post, as documents: the items of the
/// member `errors` of the member `json`, `null` counting as no errors.
pub open spec fn post_errors(doc: JsonValue) -> Option<Seq<JsonValue>> {
    match field(doc, "json"@) {
        Some(inner) => match field(inner, "errors"@) {
            Some(JsonValue::Null) => Some(Seq::empty()),
            Some(errors) => items_of(errors),
            None => None,
        },
        None => None,
    }
}

/// The data of the answer to a post: the member `data` of the member
/// `json`, where it is there and not `null`.
pub open spec fn post_data(doc: JsonValue) -> Option<JsonValue> {
    match field(doc, "json"@) {
        Some(inner) => present(inner, "data"@),
        None => None,
    }
}

/// Whether the answer to a post can be read: its errors are there and each
/// is an error.
pub open spec fn post_decodes(doc: JsonValue) -> bool {
    &&& post_errors(doc) matches Some(errors)
    &&& forall|i: int| 0 <= i < errors.len() ==> ApiError::decodes(#[trigger] errors[i])
}

/// Whether the answer to a post is complete: where it lists no error, it
/// brings its data.
pub open spec fn post_complete(doc: JsonValue) -> bool {
    match post_errors(doc) {
        Some(errors) => errors.len() == 0 ==> post_data(doc) is Some,
        None => true,
    }
}

/// Says whether the answer to a post is complete.
pub fn is_complete_post_response(doc: &Json) -> (r: bool)
    ensures
        r == post_complete(doc@),
{
    let inner = match doc.get("json") {
        Some(inner) => inner,
        None => {
            return true;
        },
    };
    let listed = match inner.get("errors") {
        Some(listed) => listed,
        None => {
            return true;
        },
    };
    let none_listed = match listed {
        Json::Null => true,
        other => match other.as_array() {
            Some(items) => items.len() == 0,
            None => {
                return true;
            },
        },
    };
    if none_listed {
        inner.get_present("data").is_some()
    } else {
        true
    }
}

/// Reads the answer to a post. Errors take precedence: where the API
/// reports any, all of them are handed back in order, and the data is not
/// looked at. An answer that lists no error and brings no data is not
/// taken.
pub fn open_post_response(doc: &Json) -> (r: Result<PostOutcome<'_>, DecodeError>)
    requires
        post_complete(doc@),
    ensures
        r is Ok <==> post_decodes(doc@),
        r matches Ok(PostOutcome::Errors(errors)) ==> {
            &&& post_errors(doc@) matches Some(docs)
            &&& docs.len() > 0
            &&& docs.len() == errors@.len()
            &&& forall|i: int| 0 <= i < errors@.len() ==> (#[trigger] errors@[i]).agrees(docs[i])
        },
        r matches Ok(PostOutcome::Data(data)) ==> {
            &&& post_errors(doc@) matches Some(docs)
            &&& docs.len() == 0
            &&& post_data(doc@) == Some(data@)
        },
{
    let inner = match doc.get("json") {
        Some(inner) => inner,
        None => {
            return Err(DecodeError);
        },
    };
    let listed = match inner.get("errors") {
        Some(listed) => listed,
        None => {
            return Err(DecodeError);
        },
    };
    let empty: Vec<Json> = Vec::new();
    let docs: &Vec<Json> = match listed {
        Json::Null => &empty,
        other => match other.as_array() {
            Some(items) => items,
            None => {
                return Err(DecodeError);
            },
        },
    };
    let ghost models = post_errors(doc@)->0;
    assert(models.len() == docs@.len());
    assert(forall|i: int| 0 <= i < docs@.len() ==> models[i] == (#[trigger] docs@[i])@);
    let mut errors: Vec<ApiError> = Vec::new();
    let mut i: usize = 0;
    while i < docs.len()
        invariant
            i <= docs.len(),
            errors@.len() == i,
            post_errors(doc@) == Some(models),
            models.len() == docs@.len(),
            forall|k: int| 0 <= k < docs@.len() ==> models[k] == (#[trigger] docs@[k])@,
            forall|k: int| 0 <= k < i ==> ApiError::decodes(#[trigger] models[k]),
            forall|k: int| 0 <= k < i ==> (#[trigger] errors@[k]).agrees(models[k]),
        decreases docs.len() - i,
    {
        match ApiError::decode(&docs[i]) {
            Ok(e) => {
                errors.push(e);
            },
            Err(e) => {
                assert(!ApiError::decodes(models[i as int]));
                return Err(e);
            },
        }
        i = i + 1;
    }
    if errors.len() > 0 {
        return Ok(PostOutcome::Errors(errors));
    }
    match inner.get_present("data") {
        Some(data) => Ok(PostOutcome::Data(data)),
        None => {
            assert(false);
            Err(DecodeError)
        },
    }
}

/// The things that the API made in answer to a post.
#[derive(Debug, PartialEq)]
pub struct MultipleBasicThingsData<T> {
    /// The things, each in its envelope.
    pub things: Vec<BasicThing<T>>,
}

impl<T> MultipleBasicThingsData<T> {
    /// The data of the first thing.
    pub fn assume_single(self) -> (r: T)
        requires
            self.things@.len() > 0,
        ensures
            r == self.things@[0].data,
    {
        let mut things = self.things;
        let first = things.swap_remove(0);
        first.data
    }

    /// The data of the first thing, where there is one.
    pub fn first(self) -> (r: Option<T>)
        ensures
            r is Some <==> self.things@.len() > 0,
            r matches Some(data) ==> data == self.things@[0].data,
    {
        if self.things.len() > 0 {
            Some(self.assume_single())
        } else {
            None
        }
    }
}

/// The name of a thing that was made, without its data.
#[derive(Debug, PartialEq)]
pub struct LazyThingCreatedData {
    /// The id of the thing.
    pub id: String,
    /// The fullname of the thing.
    pub name: ThingFullname,
}

impl Decode for LazyThingCreatedData {
    /// Whether a document names a thing that was made.
    open spec fn decodes(doc: JsonValue) -> bool {
        &&& str_field(doc, "id"@) is Some
        &&& crate::decode::fullname_field(doc, "name"@) is Some
    }

    /// Whether the value holds what the document says.
    open spec fn agrees(&self, doc: JsonValue) -> bool {
        &&& str_field(doc, "id"@) == Some(self.id@)
        &&& crate::decode::fullname_field(doc, "name"@) == Some(self.name@)
    }

    /// Reads the name of a thing that was made.
    fn decode(doc: &Json) -> (r: Result<Self, DecodeError>) {
        let id = match crate::decode::req_str(doc, "id") {
            Ok(v) => v,
            Err(e) => {
                return Err(e);
            },
        };
        let name = match crate::decode::req_fullname(doc, "name") {
            Ok(v) => v,
            Err(e) => {
                return Err(e);
            },
        };
        Ok(LazyThingCreatedData { id, name })
    }
}

impl<T: Decode> Decode for BasicThing<T> {
    /// A thing is an object whose `kind`, if it has one, is a string, and
    /// whose `data` is of the type that the thing wraps.
    open spec fn decodes(doc: JsonValue) -> bool {
        &&& opt_str_field(doc, "kind"@) is Some
        &&& item_field_decodes::<T>(doc, "data"@)
    }

    open spec fn agrees(&self, doc: JsonValue) -> bool {
        &&& opt_str_field(doc, "kind"@) == Some(opt_text(self.kind))
        &&& item_field_agrees(self.data, doc, "data"@)
    }

    fn decode(doc: &Json) -> (r: Result<Self, DecodeError>) {
        let kind = opt_str(doc, "kind")?;
        let data = req_item(doc, "data")?;
        Ok(BasicThing { kind, data })
    }
}

impl<T: Decode> Decode for Listing<T> {
    /// A listing is an object whose cursors, if it has them, are
    /// fullnames, and whose `children` is an array of the type that the
    /// listing holds.
    open spec fn decodes(doc: JsonValue) -> bool {
        &&& opt_str_field(doc, "modhash"@) is Some
        &&& opt_int_field(doc, "dist"@, i32::MIN as int, i32::MAX as int) is Some
        &&& opt_fullname_field(doc, "after"@) is Some
        &&& opt_fullname_field(doc, "before"@) is Some
        &&& items_field_decode::<T>(doc, "children"@)
    }

    open spec fn agrees(&self, doc: JsonValue) -> bool {
        &&& opt_str_field(doc, "modhash"@) == Some(opt_text(self.modhash))
        &&& opt_int_field(doc, "dist"@, i32::MIN as int, i32::MAX as int) == Some(
            opt_i32_int(self.dist),
        )
        &&& opt_fullname_field(doc, "after"@) == Some(opt_fullname_text(self.after))
        &&& opt_fullname_field(doc, "before"@) == Some(opt_fullname_text(self.before))
        &&& items_field_agree(self.children@, doc, "children"@)
    }

    fn decode(doc: &Json) -> (r: Result<Self, DecodeError>) {
        let modhash = opt_str(doc, "modhash")?;
        let dist = opt_i32(doc, "dist")?;
        let after = opt_fullname(doc, "after")?;
        let before = opt_fullname(doc, "before")?;
        let children = req_items(doc, "children")?;
        Ok(Listing { modhash, dist, after, before, children })
    }
}

impl<T: Decode> Decode for ListingNotFullname<T> {
    /// Such a listing is an object whose cursors, if it has them, are
    /// strings, and whose `children` is an array of the type that the
    /// listing holds.
    open spec fn decodes(doc: JsonValue) -> bool {
        &&& opt_str_field(doc, "modhash"@) is Some
        &&& opt_int_field(doc, "dist"@, i32::MIN as int, i32::MAX as int) is Some
        &&& opt_str_field(doc, "after"@) is Some
        &&& opt_str_field(doc, "before"@) is Some
        &&& items_field_decode::<T>(doc, "children"@)
    }

    open spec fn agrees(&self, doc: JsonValue) -> bool {
        &&& opt_str_field(doc, "modhash"@) == Some(opt_text(self.modhash))
        &&& opt_int_field(doc, "dist"@, i32::MIN as int, i32::MAX as int) == Some(
            opt_i32_int(self.dist),
        )
        &&& opt_str_field(doc, "after"@) == Some(opt_text(self.after))
        &&& opt_str_field(doc, "before"@) == Some(opt_text(self.before))
        &&& items_field_agree(self.children@, doc, "children"@)
    }

    fn decode(doc: &Json) -> (r: Result<Self, DecodeError>) {
        let modhash = opt_str(doc, "modhash")?;
        let dist = opt_i32(doc, "dist")?;
        let after = opt_str(doc, "after")?;
        let before = opt_str(doc, "before")?;
        let children = req_items(doc, "children")?;
        Ok(ListingNotFullname { modhash, dist, after, before, children })
    }
}

impl<T: Decode> Decode for MultipleBasicThingsData<T> {
    open spec fn decodes(doc: JsonValue) -> bool {
        items_field_decode::<BasicThing<T>>(doc, "things"@)
    }

    open spec fn agrees(&self, doc: JsonValue) -> bool {
        items_field_agree(self.things@, doc, "things"@)
    }

    fn decode(doc: &Json) -> (r: Result<Self, DecodeError>) {
        let things = req_items(doc, "things")?;
        Ok(MultipleBasicThingsData { things })
    }
}

} // verus!
