//! What a response of the database means: a pure function of the status
//! and the body.

use vstd::prelude::*;
use vstd::string::*;
use vstd::utf8::{decode_utf8, valid_utf8};
use crate::error::{body_errors, Error, ErrorView, FaunaErrors};
use crate::json::{member, parsed_document, Json, JsonView};

verus! {

/// A successful response: the resource that the database returned.
#[derive(Debug, PartialEq, Eq)]
pub struct Response {
    pub resource: Json,
}

/// The value of a `Response`.
pub ghost struct ResponseView {
    pub resource: JsonView,
}

impl View for Response {
    type V = ResponseView;

    open spec fn view(&self) -> ResponseView {
        ResponseView { resource: self.resource@ }
    }
}

/// The response that the text of a body holds: a document with a member
/// `resource`.
pub open spec fn body_response(body: Seq<char>) -> Option<ResponseView> {
    match parsed_document(body) {
        Some(doc) => match member(doc, "resource"@) {
            Some(resource) => Some(ResponseView { resource }),
            None => None,
        },
        None => None,
    }
}

impl Response {
    /// Reads a response from the text of a body.
    pub fn parse(body: &str) -> (r: Option<Response>)
        ensures
            match r {
                Some(response) => body_response(body@) == Some(response@),
                None => body_response(body@) is None,
            },
    {
        match Json::parse(body) {
            Some(doc) => match doc.take("resource") {
                Some(resource) => Some(Response { resource }),
                None => None,
            },
            None => None,
        }
    }
}

/// The status is one of success: 200 to 299.
pub open spec fn is_success(status: u16) -> bool {
    200 <= status < 300
}

/// What a status and the text of a body mean: on success the text, to be
/// decoded; else the error of the status. A body of status 400 or 404 that
/// describes no errors is given back as it came, in a `DatabaseError`.
pub open spec fn text_outcome(status: u16, body: Seq<char>) -> Result<Seq<char>, ErrorView> {
    if is_success(status) {
        Ok(body)
    } else if status == 401 {
        Err(ErrorView::Unauthorized)
    } else if status == 400 {
        match body_errors(body) {
            Some(errors) => Err(ErrorView::BadRequest(errors)),
            None => Err(ErrorView::DatabaseError(body)),
        }
    } else if status == 404 {
        match body_errors(body) {
            Some(errors) => Err(ErrorView::NotFound(errors)),
            None => Err(ErrorView::DatabaseError(body)),
        }
    } else {
        Err(ErrorView::DatabaseError(body))
    }
}

/// What a status and the bytes of a body mean: `EmptyResponse` where the
/// bytes are no UTF-8 text, whatever the status; else what the status and
/// the text mean.
pub open spec fn status_outcome(status: u16, body: Seq<u8>) -> Result<Seq<char>, ErrorView> {
    if valid_utf8(body) {
        text_outcome(status, decode_utf8(body))
    } else {
        Err(ErrorView::EmptyResponse)
    }
}

/// What a status and the bytes of a body mean to a query: the response of
/// a successful body, and a `DatabaseError` with the text where a
/// successful body holds no response.
pub open spec fn response_outcome(status: u16, body: Seq<u8>) -> Result<ResponseView, ErrorView> {
    match status_outcome(status, body) {
        Ok(text) => match body_response(text) {
            Some(response) => Ok(response),
            None => Err(ErrorView::DatabaseError(text)),
        },
        Err(error) => Err(error),
    }
}

/// Calls `String::from_utf8`. Trusted: it accepts the bytes exactly where
/// they are valid UTF-8, and the string is then the text they encode.
#[verifier::external_body]
fn text_of_bytes(bytes: Vec<u8>) -> (r: Option<String>)
    ensures
        r is Some <==> valid_utf8(bytes@),
        r is Some ==> r.unwrap()@ == decode_utf8(bytes@),
{
    String::from_utf8(bytes).ok()
}

/// Classifies a response by its status and the text of its body.
pub fn classify_text(status: u16, body: String) -> (r: Result<String, Error>)
    ensures
        match r {
            Ok(text) => text_outcome(status, body@) == Ok::<Seq<char>, ErrorView>(text@),
            Err(error) => text_outcome(status, body@) == Err::<Seq<char>, ErrorView>(error@),
        },
{
    if 200 <= status && status < 300 {
        Ok(body)
    } else if status == 401 {
        Err(Error::Unauthorized)
    } else if status == 400 {
        match FaunaErrors::parse(body.as_str()) {
            Some(errors) => Err(Error::BadRequest(errors)),
            None => Err(Error::DatabaseError(body)),
        }
    } else if status == 404 {
        match FaunaErrors::parse(body.as_str()) {
            Some(errors) => Err(Error::NotFound(errors)),
            None => Err(Error::DatabaseError(body)),
        }
    } else {
        Err(Error::DatabaseError(body))
    }
}

/// Classifies a response by its status and the bytes of its body.
pub fn classify(status: u16, body: Vec<u8>) -> (r: Result<String, Error>)
    ensures
        match r {
            Ok(text) => status_outcome(status, body@) == Ok::<Seq<char>, ErrorView>(text@),
            Err(error) => status_outcome(status, body@) == Err::<Seq<char>, ErrorView>(error@),
        },
{
    match text_of_bytes(body) {
        Some(text) => classify_text(status, text),
        None => Err(Error::EmptyResponse),
    }
}

/// Classifies a response, and decodes the text of a successful one with
/// `decode`. On every other response the error of the classification is
/// returned.
pub fn decode_with<T, F: FnOnce(String) -> T>(status: u16, body: Vec<u8>, decode: F) -> (r: Result<
    T,
    Error,
>)
    requires
        forall|text: String| decode.requires((text,)),
    ensures
        match r {
            Ok(value) => exists|text: String|
                status_outcome(status, body@) == Ok::<Seq<char>, ErrorView>(text@)
                    && decode.ensures((text,), value),
            Err(error) => status_outcome(status, body@) == Err::<Seq<char>, ErrorView>(error@),
        },
{
    match classify(status, body) {
        Ok(text) => Ok(decode(text)),
        Err(error) => Err(error),
    }
}

/// Classifies a response to a query, and reads the response of a successful
/// one.
pub fn decode_response(status: u16, body: Vec<u8>) -> (r: Result<Response, Error>)
    ensures
        match r {
            Ok(response) => response_outcome(status, body@) == Ok::<ResponseView, ErrorView>(
                response@,
            ),
            Err(error) => response_outcome(status, body@) == Err::<ResponseView, ErrorView>(
                error@,
            ),
        },
{
    match classify(status, body) {
        Ok(text) => match Response::parse(text.as_str()) {
            Some(response) => Ok(response),
            None => Err(Error::DatabaseError(text)),
        },
        Err(error) => Err(error),
    }
}

/// How the exchange with the database ended.
pub enum Reply {
    /// The response arrived whole, within the deadline.
    Received { status: u16, body: Vec<u8> },
    /// The transport failed, with its message.
    ConnectionFailed(String),
    /// The deadline passed first.
    DeadlineElapsed,
    /// The deadline itself failed, without an error of the transport.
    DeadlineFailed,
}

/// The value of a `Reply`.
pub ghost enum ReplyView {
    Received { status: u16, body: Seq<u8> },
    ConnectionFailed(Seq<char>),
    DeadlineElapsed,
    DeadlineFailed,
}

impl View for Reply {
    type V = ReplyView;

    open spec fn view(&self) -> ReplyView {
        match self {
            Reply::Received { status, body } => ReplyView::Received { status: *status, body: body@ },
            Reply::ConnectionFailed(message) => ReplyView::ConnectionFailed(message@),
            Reply::DeadlineElapsed => ReplyView::DeadlineElapsed,
            Reply::DeadlineFailed => ReplyView::DeadlineFailed,
        }
    }
}

/// What the end of an exchange means to a query. A deadline that passed
/// gives `TimeoutError`, whatever the response would have been.
pub open spec fn reply_outcome(reply: ReplyView) -> Result<ResponseView, ErrorView> {
    match reply {
        ReplyView::Received { status, body } => response_outcome(status, body),
        ReplyView::ConnectionFailed(message) => Err(ErrorView::ConnectionError(message)),
        ReplyView::DeadlineElapsed => Err(ErrorView::TimeoutError),
        ReplyView::DeadlineFailed => Err(ErrorView::Other),
    }
}

/// Resolves a query from the end of its exchange.
pub fn resolve(reply: Reply) -> (r: Result<Response, Error>)
    ensures
        match r {
            Ok(response) => reply_outcome(reply@) == Ok::<ResponseView, ErrorView>(response@),
            Err(error) => reply_outcome(reply@) == Err::<ResponseView, ErrorView>(error@),
        },
{
    match reply {
        Reply::Received { status, body } => decode_response(status, body),
        Reply::ConnectionFailed(message) => Err(Error::ConnectionError(message)),
        Reply::DeadlineElapsed => Err(Error::TimeoutError),
        Reply::DeadlineFailed => Err(Error::Other),
    }
}

/// A response of status 400 whose body describes errors ends in
/// `BadRequest` with those errors, and a decoder of successful bodies
/// gets nothing to decode.
pub proof fn lemma_bad_request_carries_errors(body: Seq<u8>)
    requires
        valid_utf8(body),
        body_errors(decode_utf8(body)) is Some,
    ensures
        status_outcome(400, body) == Err::<Seq<char>, ErrorView>(
            ErrorView::BadRequest(body_errors(decode_utf8(body)).unwrap()),
        ),
        response_outcome(400, body) == Err::<ResponseView, ErrorView>(
            ErrorView::BadRequest(body_errors(decode_utf8(body)).unwrap()),
        ),
{
}

/// A response of status 404 whose body describes errors ends in `NotFound`
/// with those errors.
pub proof fn lemma_not_found_carries_errors(body: Seq<u8>)
    requires
        valid_utf8(body),
        body_errors(decode_utf8(body)) is Some,
    ensures
        response_outcome(404, body) == Err::<ResponseView, ErrorView>(
            ErrorView::NotFound(body_errors(decode_utf8(body)).unwrap()),
        ),
{
}

/// A response of status 401 ends in `Unauthorized`, whatever text its body
/// holds.
pub proof fn lemma_unauthorized_whatever_the_text(body: Seq<u8>)
    requires
        valid_utf8(body),
    ensures
        status_outcome(401, body) == Err::<Seq<char>, ErrorView>(ErrorView::Unauthorized),
        response_outcome(401, body) == Err::<ResponseView, ErrorView>(ErrorView::Unauthorized),
{
}

/// A deadline that passed ends in `TimeoutError`: the reply holds no status
/// and no body that the outcome could come from.
pub proof fn lemma_deadline_elapsed_is_timeout(reply: ReplyView)
    requires
        reply is DeadlineElapsed,
    ensures
        reply_outcome(reply) == Err::<ResponseView, ErrorView>(ErrorView::TimeoutError),
{
}

/// A successful response with text as its body hands exactly that text to
/// the decoder, and a body that holds a response ends in that response.
pub proof fn lemma_success_is_decoded(status: u16, body: Seq<u8>)
    requires
        is_success(status),
        valid_utf8(body),
    ensures
        status_outcome(status, body) == Ok::<Seq<char>, ErrorView>(decode_utf8(body)),
        body_response(decode_utf8(body)) is Some ==> response_outcome(status, body) == Ok::<
            ResponseView,
            ErrorView,
        >(body_response(decode_utf8(body)).unwrap()),
{
}

/// Every status other than success, 400, 401 and 404 ends in
/// `DatabaseError` with the text of the body.
pub proof fn lemma_other_status_is_database_error(status: u16, body: Seq<u8>)
    requires
        !is_success(status),
        status != 400,
        status != 401,
        status != 404,
        valid_utf8(body),
    ensures
        response_outcome(status, body) == Err::<ResponseView, ErrorView>(
            ErrorView::DatabaseError(decode_utf8(body)),
        ),
{
}

} // verus!
