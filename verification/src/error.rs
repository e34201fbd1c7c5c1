//! The errors that a query can end in, and the error documents of the
//! database.

use vstd::prelude::*;
use vstd::string::*;
use crate::json::{member, parsed_document, Json, JsonView};

verus! {

/// One error of the database: a code for programs and a description for
/// people.
#[derive(Debug, PartialEq, Eq)]
pub struct FaunaError {
    pub code: String,
    pub description: String,
}

/// The value of a `FaunaError`.
pub ghost struct FaunaErrorView {
    pub code: Seq<char>,
    pub description: Seq<char>,
}

impl View for FaunaError {
    type V = FaunaErrorView;

    open spec fn view(&self) -> FaunaErrorView {
        FaunaErrorView { code: self.code@, description: self.description@ }
    }
}

/// The errors that the database answers a refused query with, in its order.
#[derive(Debug, PartialEq, Eq)]
pub struct FaunaErrors {
    pub errors: Vec<FaunaError>,
}

impl View for FaunaErrors {
    type V = Seq<FaunaErrorView>;

    open spec fn view(&self) -> Seq<FaunaErrorView> {
        self.errors@.map_values(|error: FaunaError| error@)
    }
}

/// How a query can fail.
#[derive(Debug, PartialEq, Eq)]
pub enum Error {
    /// The transport failed, or the client could not be made.
    ConnectionError(String),
    /// The deadline passed before the response was there.
    TimeoutError,
    /// Status 401.
    Unauthorized,
    /// Status 400, with the errors of the body.
    BadRequest(FaunaErrors),
    /// Status 404, with the errors of the body.
    NotFound(FaunaErrors),
    /// Any other failure of the database, with the body as it came.
    DatabaseError(String),
    /// The body was no text.
    EmptyResponse,
    /// The deadline failed without an error of the transport.
    Other,
}

/// The value of an `Error`.
pub ghost enum ErrorView {
    ConnectionError(Seq<char>),
    TimeoutError,
    Unauthorized,
    BadRequest(Seq<FaunaErrorView>),
    NotFound(Seq<FaunaErrorView>),
    DatabaseError(Seq<char>),
    EmptyResponse,
    Other,
}

impl View for Error {
    type V = ErrorView;

    open spec fn view(&self) -> ErrorView {
        match self {
            Error::ConnectionError(message) => ErrorView::ConnectionError(message@),
            Error::TimeoutError => ErrorView::TimeoutError,
            Error::Unauthorized => ErrorView::Unauthorized,
            Error::BadRequest(errors) => ErrorView::BadRequest(errors@),
            Error::NotFound(errors) => ErrorView::NotFound(errors@),
            Error::DatabaseError(body) => ErrorView::DatabaseError(body@),
            Error::EmptyResponse => ErrorView::EmptyResponse,
            Error::Other => ErrorView::Other,
        }
    }
}

/// The text of the member of `doc` under `key`, where that member is a
/// string.
pub open spec fn string_member(doc: JsonView, key: Seq<char>) -> Option<Seq<char>> {
    match member(doc, key) {
        Some(JsonView::String(text)) => Some(text),
        _ => None,
    }
}

/// The error that `doc` describes: an object whose members `code` and
/// `description` are strings. Other members are passed over.
pub open spec fn error_of(doc: JsonView) -> Option<FaunaErrorView> {
    match (string_member(doc, "code"@), string_member(doc, "description"@)) {
        (Some(code), Some(description)) => Some(FaunaErrorView { code, description }),
        _ => None,
    }
}

/// The errors that `doc` describes: an object whose member `errors` is an
/// array of errors.
pub open spec fn errors_of(doc: JsonView) -> Option<Seq<FaunaErrorView>> {
    match member(doc, "errors"@) {
        Some(JsonView::Array(items)) => {
            if forall|i: int| 0 <= i < items.len() ==> (#[trigger] error_of(items[i])) is Some {
                Some(items.map_values(|item: JsonView| error_of(item).unwrap()))
            } else {
                None
            }
        },
        _ => None,
    }
}

/// The errors that the text of a body describes.
pub open spec fn body_errors(body: Seq<char>) -> Option<Seq<FaunaErrorView>> {
    match parsed_document(body) {
        Some(doc) => errors_of(doc),
        None => None,
    }
}

fn string_of_member(doc: &Json, key: &str) -> (r: Option<String>)
    ensures
        match r {
            Some(text) => string_member(doc@, key@) == Some(text@),
            None => string_member(doc@, key@) is None,
        },
{
    match doc.get(key) {
        Some(found) => match found.as_str() {
            Some(text) => Some(String::from_str(text)),
            None => None,
        },
        None => None,
    }
}

impl FaunaError {
    /// Reads one error from a document.
    pub fn from_json(doc: &Json) -> (r: Option<FaunaError>)
        ensures
            match r {
                Some(error) => error_of(doc@) == Some(error@),
                None => error_of(doc@) is None,
            },
    {
        match string_of_member(doc, "code") {
            Some(code) => match string_of_member(doc, "description") {
                Some(description) => Some(FaunaError { code, description }),
                None => None,
            },
            None => None,
        }
    }
}

impl FaunaErrors {
    /// Reads the errors from a document.
    pub fn from_json(doc: &Json) -> (r: Option<FaunaErrors>)
        ensures
            match r {
                Some(errors) => errors_of(doc@) == Some(errors@),
                None => errors_of(doc@) is None,
            },
    {
        let list = match doc.get("errors") {
            Some(list) => list,
            None => {
                return None;
            },
        };
        let items = match list.as_array() {
            Some(items) => items,
            None => {
                return None;
            },
        };
        let ghost views = list@->Array_0;
        let mut errors: Vec<FaunaError> = Vec::new();
        let mut i: usize = 0;
        while i < items.len()
            invariant
                i <= items.len(),
                errors.len() == i,
                views.len() == items.len(),
                member(doc@, "errors"@) == Some(JsonView::Array(views)),
                forall|j: int| 0 <= j < items.len() ==> (#[trigger] views[j]) == items[j]@,
                forall|j: int| 0 <= j < i ==> error_of(views[j]) == Some((#[trigger] errors[j])@),
            decreases items.len() - i,
        {
            match FaunaError::from_json(&items[i]) {
                Some(error) => {
                    errors.push(error);
                },
                None => {
                    assert(error_of(views[i as int]) is None);
                    return None;
                },
            }
            i += 1;
        }
        let r = FaunaErrors { errors };
        assert forall|j: int| 0 <= j < views.len() implies (#[trigger] error_of(views[j])) is Some by {
            assert(error_of(views[j]) == Some(r.errors[j]@));
        }
        assert(r@ =~= views.map_values(|item: JsonView| error_of(item).unwrap()));
        Some(r)
    }

    /// Reads the errors from the text of a body.
    pub fn parse(body: &str) -> (r: Option<FaunaErrors>)
        ensures
            match r {
                Some(errors) => body_errors(body@) == Some(errors@),
                None => body_errors(body@) is None,
            },
    {
        match Json::parse(body) {
            Some(doc) => FaunaErrors::from_json(&doc),
            None => None,
        }
    }
}

} // verus!
