use crate::http::{ContentType, Reply, Response, StatusCode};
use vstd::prelude::*;

verus! {

/// Why the body of a request could not be read as the JSON it was asked for.
#[derive(Clone, Copy, Debug, PartialEq, Eq)]
pub enum RejectionKind {
    /// The request does not announce a JSON body in its `Content-Type`.
    MediaType,
    /// The body is not JSON.
    Syntax,
    /// The body is JSON of another shape than the one asked for.
    Data,
    /// The body is longer than the transport accepts.
    TooLarge,
    /// The body could not be read to its end.
    Unreadable,
}

impl RejectionKind {
    /// The status that answers a request rejected for this reason.
    pub open spec fn status(self) -> StatusCode {
        match self {
            RejectionKind::MediaType => StatusCode::UnsupportedMediaType,
            RejectionKind::Syntax => StatusCode::BadRequest,
            RejectionKind::Data => StatusCode::UnprocessableEntity,
            RejectionKind::TooLarge => StatusCode::PayloadTooLarge,
            RejectionKind::Unreadable => StatusCode::BadRequest,
        }
    }

    pub fn status_code(self) -> (status: StatusCode)
        ensures
            status == self.status(),
            status.client_error(),
    {
        match self {
            RejectionKind::MediaType => StatusCode::UnsupportedMediaType,
            RejectionKind::Syntax => StatusCode::BadRequest,
            RejectionKind::Data => StatusCode::UnprocessableEntity,
            RejectionKind::TooLarge => StatusCode::PayloadTooLarge,
            RejectionKind::Unreadable => StatusCode::BadRequest,
        }
    }
}

/// A request body that was turned down, with the text that tells the client why.
#[derive(Clone, Debug, PartialEq, Eq)]
pub struct Rejection {
    pub kind: RejectionKind,
    pub message: String,
}

/// What a `Rejection` is in contracts.
pub struct RejectionView {
    pub kind: RejectionKind,
    pub message: Seq<char>,
}

impl View for Rejection {
    type V = RejectionView;

    open spec fn view(&self) -> RejectionView {
        RejectionView { kind: self.kind, message: self.message@ }
    }
}

/// The answer to a rejected body: the status of its kind over the message as plain text.
pub open spec fn rejection_reply(rejection: RejectionView) -> Reply {
    Reply {
        status: rejection.kind.status(),
        content_type: Some(ContentType::Text),
        allow: None,
        body: rejection.message,
    }
}

/// Every rejection is answered with a status of the 4xx class.
pub proof fn rejection_is_client_error(rejection: RejectionView)
    ensures
        rejection_reply(rejection).status.client_error(),
        400 <= rejection_reply(rejection).status.number() < 500,
{
}

impl Response {
    /// The answer to a rejected body.
    pub fn rejection(rejection: Rejection) -> (response: Response)
        ensures
            response@ == rejection_reply(rejection@),
            response.status.client_error(),
    {
        Response {
            status: rejection.kind.status_code(),
            content_type: Some(ContentType::Text),
            allow: None,
            body: rejection.message,
        }
    }
}

} // verus!
