//! What a handler answers: a status and a body.

use crate::wire::{WireValue, WireView};
use vstd::prelude::*;

verus! {

/// The status of a reply.
#[derive(Clone, Copy, Debug, PartialEq, Eq)]
pub enum StatusCode {
    /// The request was served.
    Success,
    /// The body of the request is not JSON text.
    BadRequest,
    /// The request does not declare its body as JSON.
    UnsupportedMediaType,
    /// The body is JSON, but not a payload of the kind asked for.
    UnprocessableEntity,
    /// The pool or storage failed.
    InternalServerError,
}

impl StatusCode {
    /// The number that stands for this status on the wire.
    pub open spec fn code(self) -> int {
        match self {
            StatusCode::Success => 200,
            StatusCode::BadRequest => 400,
            StatusCode::UnsupportedMediaType => 415,
            StatusCode::UnprocessableEntity => 422,
            StatusCode::InternalServerError => 500,
        }
    }

    /// Whether this status blames the request: its number lies in 400..=499.
    pub open spec fn is_client_error(self) -> bool {
        400 <= self.code() <= 499
    }

    /// The number that stands for this status on the wire.
    pub fn as_u16(self) -> (code: u16)
        ensures
            code == self.code(),
    {
        match self {
            StatusCode::Success => 200,
            StatusCode::BadRequest => 400,
            StatusCode::UnsupportedMediaType => 415,
            StatusCode::UnprocessableEntity => 422,
            StatusCode::InternalServerError => 500,
        }
    }
}

/// The body of a reply.
#[derive(Debug, PartialEq, Eq)]
pub enum Body {
    /// A value, sent as JSON.
    Json(WireValue),
    /// Plain text.
    Text(String),
}

/// A reply to a request.
#[derive(Debug, PartialEq, Eq)]
pub struct Response {
    pub status: StatusCode,
    pub body: Body,
}

/// Mathematical value of a [`Body`].
pub enum BodyView {
    Json(WireView),
    Text(Seq<char>),
}

/// Mathematical value of a [`Response`].
pub struct ResponseView {
    pub status: StatusCode,
    pub body: BodyView,
}

impl View for Body {
    type V = BodyView;

    open spec fn view(&self) -> BodyView {
        match self {
            Body::Json(value) => BodyView::Json(value@),
            Body::Text(text) => BodyView::Text(text@),
        }
    }
}

impl View for Response {
    type V = ResponseView;

    open spec fn view(&self) -> ResponseView {
        ResponseView { status: self.status, body: self.body@ }
    }
}

/// The reply to a request that was served: status 200 and the value shown.
pub open spec fn success(value: WireView) -> ResponseView {
    ResponseView { status: StatusCode::Success, body: BodyView::Json(value) }
}

/// The reply to a request that failed on the side of the service (pool,
/// storage): status 500 and the description of the failure as plain text.
pub open spec fn failure(description: Seq<char>) -> ResponseView {
    ResponseView { status: StatusCode::InternalServerError, body: BodyView::Text(description) }
}

/// The reply to a request that is itself at fault: the status that names
/// the fault and its description as plain text.
pub open spec fn refusal(status: StatusCode, description: Seq<char>) -> ResponseView {
    ResponseView { status, body: BodyView::Text(description) }
}

/// Maps the description of any error to status 500 with that description.
pub fn internal_error(description: String) -> (error: (StatusCode, String))
    ensures
        error.0 == StatusCode::InternalServerError,
        error.1@ == description@,
{
    (StatusCode::InternalServerError, description)
}

impl Response {
    /// The reply to a request that was served.
    pub fn served(value: WireValue) -> (response: Response)
        ensures
            response@ == success(value@),
    {
        Response { status: StatusCode::Success, body: Body::Json(value) }
    }

    /// The reply to a request that is itself at fault.
    pub fn refused(status: StatusCode, description: String) -> (response: Response)
        ensures
            response@ == refusal(status, description@),
    {
        Response { status, body: Body::Text(description) }
    }

    /// The reply to a request that failed on the side of the service.
    pub fn failed(description: String) -> (response: Response)
        ensures
            response@ == failure(description@),
    {
        let (status, text) = internal_error(description);
        Response { status, body: Body::Text(text) }
    }
}

} // verus!
