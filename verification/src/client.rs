//! What a client makes of a response, once the body is read.

use crate::api::response::{open_post_response, post_complete, post_data, post_decodes,
    post_errors, ApiError,
    PostOutcome};
use crate::decode::{Decode, DecodeError};
use crate::error::{RedditFailure, RouxError, RouxErrorKind};
use crate::json::{json_parse, Json, JsonValue};
use vstd::prelude::*;
use vstd::string::StringExecFns;

verus! {

/// The status of a response that carries no content.
pub const NO_CONTENT: u16 = 204;

/// The status of a response for something that is not there.
pub const NOT_FOUND: u16 = 404;

/// The text of the parse error for a document of another shape than the
/// one expected.
pub const UNEXPECTED_SHAPE: &'static str = "unexpected shape of response";

/// Reads a value from the body of a response. A body that is no JSON
/// document, or a document of another shape, is a parse error.
pub fn decode_response<T: Decode>(body: &str) -> (r: Result<T, RouxError>)
    ensures
        r is Ok <==> (json_parse(body@) matches Some(doc) && T::decodes(doc)),
        r matches Ok(value) ==> value.agrees(json_parse(body@)->0),
        r matches Err(e) ==> e.kind is Parse,
        json_parse(body@) is Some ==> (r matches Err(e) ==> e.kind matches RouxErrorKind::Parse(
            m,
        ) && m@ == UNEXPECTED_SHAPE@),
{
    let doc = match Json::parse(body) {
        Ok(doc) => doc,
        Err(message) => {
            return Err(RouxError::new(RouxErrorKind::Parse(message)));
        },
    };
    match T::decode(&doc) {
        Ok(value) => Ok(value),
        Err(_) => Err(
            RouxError::new(RouxErrorKind::Parse(String::from_str(UNEXPECTED_SHAPE))),
        ),
    }
}

/// Reads the answer to a post and then the data in it. Where the API
/// reports errors the result is an error of the API that holds all of
/// them, in order; the data is read only where it reports none. An answer
/// that lists no error and brings no data is not taken.
pub fn decode_post_response<T: Decode>(doc: &Json) -> (r: Result<T, RouxError>)
    requires
        post_complete(doc@),
    ensures
        r is Ok <==> (post_decodes(doc@) && post_errors(doc@)->0.len() == 0 && T::decodes(
            post_data(doc@)->0,
        )),
        r matches Ok(value) ==> value.agrees(post_data(doc@)->0),
        post_decodes(doc@) && post_errors(doc@)->0.len() > 0 ==> {
            &&& r matches Err(e)
            &&& e.kind matches RouxErrorKind::RedditError(RedditFailure::Errors(errors))
            &&& errors@.len() == post_errors(doc@)->0.len()
            &&& forall|i: int|
                0 <= i < errors@.len() ==> (#[trigger] errors@[i]).agrees(post_errors(doc@)->0[i])
        },
        !post_decodes(doc@) ==> (r matches Err(e) && e.kind is Parse),
{
    match open_post_response(doc) {
        Ok(PostOutcome::Errors(errors)) => Err(RouxError::reddit_errors(errors)),
        Ok(PostOutcome::Data(data)) => match T::decode(data) {
            Ok(value) => Ok(value),
            Err(_) => Err(
                RouxError::new(
                    RouxErrorKind::Parse(String::from_str(UNEXPECTED_SHAPE)),
                ),
            ),
        },
        Err(_) => Err(
            RouxError::new(RouxErrorKind::Parse(String::from_str(UNEXPECTED_SHAPE))),
        ),
    }
}

/// What the revocation of a token came to: done where the status is 204,
/// and otherwise a status error with the status.
pub fn logout_result(status: u16) -> (r: Result<(), RouxError>)
    ensures
        r is Ok <==> status == NO_CONTENT,
        r matches Err(e) ==> e.kind == RouxErrorKind::Status(status),
{
    if status == NO_CONTENT {
        Ok(())
    } else {
        Err(RouxError::new(RouxErrorKind::Status(status)))
    }
}

/// Whether an error is a response that counts as a failure, with status
/// 404.
pub open spec fn is_not_found(kind: RouxErrorKind) -> bool {
    match kind {
        RouxErrorKind::FullNetwork(status, _) => status == NOT_FOUND,
        _ => false,
    }
}

/// Whether an error says that a subreddit has no sticky post: a response
/// that counts as a failure, with status 404.
pub fn is_no_sticky(error: &RouxError) -> (r: bool)
    ensures
        r <==> is_not_found(error.kind),
{
    match &error.kind {
        RouxErrorKind::FullNetwork(status, _) => *status == NOT_FOUND,
        _ => false,
    }
}

/// What the fetch of a sticky post came to: nothing where the subreddit
/// has none, the value that was fetched, or the error.
pub fn sticky_result<T>(fetched: Result<T, RouxError>) -> (r: Result<Option<T>, RouxError>)
    ensures
        match fetched {
            Ok(value) => r == Ok::<Option<T>, RouxError>(Some(value)),
            Err(e) => if is_not_found(e.kind) {
                r == Ok::<Option<T>, RouxError>(None)
            } else {
                r == Err::<Option<T>, RouxError>(e)
            },
        },
{
    match fetched {
        Ok(value) => Ok(Some(value)),
        Err(e) => if is_no_sticky(&e) {
            Ok(None)
        } else {
            Err(e)
        },
    }
}

} // verus!
