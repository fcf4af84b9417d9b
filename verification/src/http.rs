use crate::text::same_text;
use vstd::prelude::*;

verus! {

/// The request methods the route table tells apart.
#[derive(Clone, Copy, Debug, PartialEq, Eq)]
pub enum Method {
    Get,
    Head,
    Post,
    /// Any other method token.
    Other,
}

/// The method that a request-line token names. Tokens are case-sensitive.
pub open spec fn method_of(token: Seq<char>) -> Method {
    if token == "GET"@ {
        Method::Get
    } else if token == "HEAD"@ {
        Method::Head
    } else if token == "POST"@ {
        Method::Post
    } else {
        Method::Other
    }
}

impl Method {
    /// Reads a method from its request-line token.
    pub fn from_token(token: &str) -> (method: Method)
        ensures
            method == method_of(token@),
    {
        if same_text(token, "GET") {
            Method::Get
        } else if same_text(token, "HEAD") {
            Method::Head
        } else if same_text(token, "POST") {
            Method::Post
        } else {
            Method::Other
        }
    }
}

/// The status codes this service answers with.
#[derive(Clone, Copy, Debug, PartialEq, Eq)]
pub enum StatusCode {
    Success,
    Created,
    BadRequest,
    NotFound,
    MethodNotAllowed,
    PayloadTooLarge,
    UnsupportedMediaType,
    UnprocessableEntity,
}

impl StatusCode {
    /// The three-digit number sent on the status line.
    pub open spec fn number(self) -> u16 {
        match self {
            StatusCode::Success => 200,
            StatusCode::Created => 201,
            StatusCode::BadRequest => 400,
            StatusCode::NotFound => 404,
            StatusCode::MethodNotAllowed => 405,
            StatusCode::PayloadTooLarge => 413,
            StatusCode::UnsupportedMediaType => 415,
            StatusCode::UnprocessableEntity => 422,
        }
    }

    /// Whether the status is in the 4xx class.
    pub open spec fn client_error(self) -> bool {
        400 <= self.number() < 500
    }

    pub fn as_u16(self) -> (code: u16)
        ensures
            code == self.number(),
    {
        match self {
            StatusCode::Success => 200,
            StatusCode::Created => 201,
            StatusCode::BadRequest => 400,
            StatusCode::NotFound => 404,
            StatusCode::MethodNotAllowed => 405,
            StatusCode::PayloadTooLarge => 413,
            StatusCode::UnsupportedMediaType => 415,
            StatusCode::UnprocessableEntity => 422,
        }
    }

    pub fn is_client_error(self) -> (yes: bool)
        ensures
            yes == self.client_error(),
    {
        let code = self.as_u16();
        400 <= code && code < 500
    }
}

/// The media type of a response body.
#[derive(Clone, Copy, Debug, PartialEq, Eq)]
pub enum ContentType {
    /// `text/plain`, in UTF-8.
    Text,
    /// `application/json`.
    Json,
}

impl ContentType {
    pub open spec fn header(self) -> Seq<char> {
        match self {
            ContentType::Text => "text/plain; charset=utf-8"@,
            ContentType::Json => "application/json"@,
        }
    }

    /// The value of the `Content-Type` header.
    pub fn header_value(self) -> (value: &'static str)
        ensures
            value@ == self.header(),
    {
        match self {
            ContentType::Text => "text/plain; charset=utf-8",
            ContentType::Json => "application/json",
        }
    }
}

/// The methods a route names in the `Allow` header of a 405 response.
#[derive(Clone, Copy, Debug, PartialEq, Eq)]
pub enum Allow {
    GetHead,
    Post,
}

impl Allow {
    pub open spec fn header(self) -> Seq<char> {
        match self {
            Allow::GetHead => "GET,HEAD"@,
            Allow::Post => "POST"@,
        }
    }

    /// The value of the `Allow` header.
    pub fn header_value(self) -> (value: &'static str)
        ensures
            value@ == self.header(),
    {
        match self {
            Allow::GetHead => "GET,HEAD",
            Allow::Post => "POST",
        }
    }
}

/// A response, as far as this service decides it: the transport adds the rest.
#[derive(Clone, Debug, PartialEq, Eq)]
pub struct Response {
    pub status: StatusCode,
    pub content_type: Option<ContentType>,
    pub allow: Option<Allow>,
    pub body: String,
}

/// What a `Response` is in contracts.
pub struct Reply {
    pub status: StatusCode,
    pub content_type: Option<ContentType>,
    pub allow: Option<Allow>,
    pub body: Seq<char>,
}

impl View for Response {
    type V = Reply;

    open spec fn view(&self) -> Reply {
        Reply {
            status: self.status,
            content_type: self.content_type,
            allow: self.allow,
            body: self.body@,
        }
    }
}

/// A body of plain text with status 200.
pub open spec fn text_reply(body: Seq<char>) -> Reply {
    Reply { status: StatusCode::Success, content_type: Some(ContentType::Text), allow: None, body }
}

/// An empty body under the given status.
pub open spec fn empty_reply(status: StatusCode) -> Reply {
    Reply { status, content_type: None, allow: None, body: Seq::empty() }
}

/// The 405 answer of a route that serves other methods.
pub open spec fn method_not_allowed_reply(allow: Allow) -> Reply {
    Reply {
        status: StatusCode::MethodNotAllowed,
        content_type: None,
        allow: Some(allow),
        body: Seq::empty(),
    }
}

impl Response {
    /// Plain text under status 200.
    pub fn text(body: &str) -> (response: Response)
        ensures
            response@ == text_reply(body@),
    {
        Response {
            status: StatusCode::Success,
            content_type: Some(ContentType::Text),
            allow: None,
            body: body.to_owned(),
        }
    }

    /// A status with no body.
    pub fn empty(status: StatusCode) -> (response: Response)
        ensures
            response@ == empty_reply(status),
    {
        Response { status, content_type: None, allow: None, body: String::new() }
    }

    /// Status 405 with the methods the route would have served.
    pub fn method_not_allowed(allow: Allow) -> (response: Response)
        ensures
            response@ == method_not_allowed_reply(allow),
    {
        Response {
            status: StatusCode::MethodNotAllowed,
            content_type: None,
            allow: Some(allow),
            body: String::new(),
        }
    }
}

} // verus!
