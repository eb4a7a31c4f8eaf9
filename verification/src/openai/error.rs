//! Errors.

use crate::json::{Json, JsonView};
use crate::model::option_view;
use vstd::prelude::*;

verus! {

/// The payload with which the service rejects a request.
#[derive(Debug, Clone, PartialEq, Eq)]
pub struct ErrorResponse {
    pub error: ErrorObject,
}

/// What the service says about a request that it rejected.
#[derive(Debug, Clone, PartialEq, Eq)]
pub struct ErrorObject {
    pub message: String,
    /// The member `type` of the payload.
    pub kind: String,
    pub param: Option<String>,
    pub code: Option<String>,
}

/// The mathematical value of an [`ErrorResponse`].
pub struct ErrorResponseView {
    pub error: ErrorObjectView,
}

/// The mathematical value of an [`ErrorObject`].
pub struct ErrorObjectView {
    pub message: Seq<char>,
    pub kind: Seq<char>,
    pub param: Option<Seq<char>>,
    pub code: Option<Seq<char>>,
}

impl View for ErrorObject {
    type V = ErrorObjectView;

    open spec fn view(&self) -> ErrorObjectView {
        ErrorObjectView {
            message: self.message@,
            kind: self.kind@,
            param: option_view(self.param),
            code: option_view(self.code),
        }
    }
}

impl View for ErrorResponse {
    type V = ErrorResponseView;

    open spec fn view(&self) -> ErrorResponseView {
        ErrorResponseView { error: self.error@ }
    }
}

impl ErrorObjectView {
    /// The error that a document describes: an object whose members
    /// `message` and `type` are strings, and whose members `param` and
    /// `code` are strings, `null` or missing. Other members do not count.
    pub open spec fn of(doc: JsonView) -> Option<ErrorObjectView> {
        match (
            doc.text_member("message"@),
            doc.text_member("type"@),
            doc.optional_text_member("param"@),
            doc.optional_text_member("code"@),
        ) {
            (Some(message), Some(kind), Some(param), Some(code)) => Some(
                ErrorObjectView { message, kind, param, code },
            ),
            _ => None,
        }
    }
}

impl ErrorResponseView {
    /// The rejection that a document describes: an object whose member
    /// `error` describes an error.
    pub open spec fn of(doc: JsonView) -> Option<ErrorResponseView> {
        match doc.member("error"@) {
            Some(inner) => match ErrorObjectView::of(inner) {
                Some(error) => Some(ErrorResponseView { error }),
                None => None,
            },
            None => None,
        }
    }
}

impl ErrorObject {
    /// Reads an error from a document, where the document describes one.
    pub fn from_json(doc: &Json) -> (r: Option<ErrorObject>)
        ensures
            option_view(r) == ErrorObjectView::of(doc@),
    {
        let message = match doc.text_member("message") {
            Some(text) => text,
            None => return None,
        };
        let kind = match doc.text_member("type") {
            Some(text) => text,
            None => return None,
        };
        let param = match doc.optional_text_member("param") {
            Some(text) => text,
            None => return None,
        };
        let code = match doc.optional_text_member("code") {
            Some(text) => text,
            None => return None,
        };
        Some(ErrorObject { message, kind, param, code })
    }
}

impl ErrorResponse {
    /// Reads a rejection from a document, where the document describes one.
    pub fn from_json(doc: &Json) -> (r: Option<ErrorResponse>)
        ensures
            option_view(r) == ErrorResponseView::of(doc@),
    {
        match doc.member("error") {
            Some(inner) => match ErrorObject::from_json(inner) {
                Some(error) => Some(ErrorResponse { error }),
                None => None,
            },
            None => None,
        }
    }
}

} // verus!
