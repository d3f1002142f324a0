//! The HTTP values the service reads and writes, as plain data.

use crate::text::same_text;
use vstd::prelude::*;

verus! {

/// A request method. Anything that is not one of the standard nine is `Other`.
#[derive(Clone, Copy, Debug, PartialEq, Eq, Structural)]
pub enum Method {
    Get,
    Head,
    Post,
    Put,
    Delete,
    Connect,
    Options,
    Trace,
    Patch,
    Other,
}

impl Method {
    /// The method that a request-line token names. Tokens are case-sensitive.
    pub open spec fn of_token(token: Seq<char>) -> Method {
        if token == "GET"@ {
            Method::Get
        } else if token == "HEAD"@ {
            Method::Head
        } else if token == "POST"@ {
            Method::Post
        } else if token == "PUT"@ {
            Method::Put
        } else if token == "DELETE"@ {
            Method::Delete
        } else if token == "CONNECT"@ {
            Method::Connect
        } else if token == "OPTIONS"@ {
            Method::Options
        } else if token == "TRACE"@ {
            Method::Trace
        } else if token == "PATCH"@ {
            Method::Patch
        } else {
            Method::Other
        }
    }

    pub fn from_token(token: &str) -> (method: Method)
        ensures
            method == Method::of_token(token@),
    {
        if same_text(token, "GET") {
            Method::Get
        } else if same_text(token, "HEAD") {
            Method::Head
        } else if same_text(token, "POST") {
            Method::Post
        } else if same_text(token, "PUT") {
            Method::Put
        } else if same_text(token, "DELETE") {
            Method::Delete
        } else if same_text(token, "CONNECT") {
            Method::Connect
        } else if same_text(token, "OPTIONS") {
            Method::Options
        } else if same_text(token, "TRACE") {
            Method::Trace
        } else if same_text(token, "PATCH") {
            Method::Patch
        } else {
            Method::Other
        }
    }
}

/// The statuses this service answers with.
#[derive(Clone, Copy, Debug, PartialEq, Eq, Structural)]
pub enum Status {
    Success,
    Forbidden,
    NotFound,
    MethodNotAllowed,
    InternalServerError,
}

impl Status {
    pub open spec fn code_spec(self) -> u16 {
        match self {
            Status::Success => 200,
            Status::Forbidden => 403,
            Status::NotFound => 404,
            Status::MethodNotAllowed => 405,
            Status::InternalServerError => 500,
        }
    }

    /// The numeric status code.
    #[verifier::when_used_as_spec(code_spec)]
    pub fn code(self) -> (code: u16)
        ensures
            code == self.code_spec(),
    {
        match self {
            Status::Success => 200,
            Status::Forbidden => 403,
            Status::NotFound => 404,
            Status::MethodNotAllowed => 405,
            Status::InternalServerError => 500,
        }
    }

    pub open spec fn is_error(self) -> bool {
        self != Status::Success
    }
}

/// One response header. Names are written in lower case.
#[derive(Clone, Debug, PartialEq, Eq)]
pub struct Header {
    pub name: String,
    pub value: String,
}

impl View for Header {
    type V = (Seq<char>, Seq<char>);

    open spec fn view(&self) -> (Seq<char>, Seq<char>) {
        (self.name@, self.value@)
    }
}

impl Header {
    pub fn new(name: &str, value: &str) -> (header: Header)
        ensures
            header@ == (name@, value@),
    {
        Header { name: String::from_str(name), value: String::from_str(value) }
    }
}

/// A response body: text the service wrote itself, or the bytes of a file.
#[derive(Clone, Debug, PartialEq, Eq)]
pub enum Body {
    Text(String),
    Bytes(Vec<u8>),
}

pub enum BodyView {
    Text(Seq<char>),
    Bytes(Seq<u8>),
}

impl View for Body {
    type V = BodyView;

    open spec fn view(&self) -> BodyView {
        match self {
            Body::Text(text) => BodyView::Text(text@),
            Body::Bytes(bytes) => BodyView::Bytes(bytes@),
        }
    }
}

impl BodyView {
    pub open spec fn is_empty(self) -> bool {
        match self {
            BodyView::Text(text) => text.len() == 0,
            BodyView::Bytes(bytes) => bytes.len() == 0,
        }
    }
}

#[derive(Clone, Debug, PartialEq, Eq)]
pub struct Response {
    pub status: Status,
    pub headers: Vec<Header>,
    pub body: Body,
}

pub struct ResponseView {
    pub status: Status,
    pub headers: Seq<(Seq<char>, Seq<char>)>,
    pub body: BodyView,
}

impl View for Response {
    type V = ResponseView;

    open spec fn view(&self) -> ResponseView {
        ResponseView {
            status: self.status,
            headers: self.headers@.map_values(|h: Header| h@),
            body: self.body@,
        }
    }
}

impl ResponseView {
    /// Whether the response carries a header with this name and value.
    pub open spec fn has_header(self, name: Seq<char>, value: Seq<char>) -> bool {
        self.headers.contains((name, value))
    }
}

/// What a request asks for: the method and the path of its target.
#[derive(Clone, Debug, PartialEq, Eq)]
pub struct Request {
    pub method: Method,
    pub path: String,
}

pub struct RequestView {
    pub method: Method,
    pub path: Seq<char>,
}

impl View for Request {
    type V = RequestView;

    open spec fn view(&self) -> RequestView {
        RequestView { method: self.method, path: self.path@ }
    }
}

impl Request {
    pub fn new(method: Method, path: &str) -> (request: Request)
        ensures
            request@ == (RequestView { method, path: path@ }),
    {
        Request { method, path: String::from_str(path) }
    }
}

/// The headers every error response carries: nothing may cache it, and the
/// connection is closed after it.
pub open spec fn error_headers() -> Seq<(Seq<char>, Seq<char>)> {
    seq![("cache-control"@, "no-cache"@), ("connection"@, "close"@)]
}

pub open spec fn error_response_view(status: Status, reason: Seq<char>) -> ResponseView {
    ResponseView { status, headers: error_headers(), body: BodyView::Text(reason) }
}

/// An error response with the given status and a short text as its body.
pub fn error_response(status: Status, reason: &str) -> (response: Response)
    ensures
        response@ == error_response_view(status, reason@),
{
    let mut headers: Vec<Header> = Vec::new();
    headers.push(Header::new("cache-control", "no-cache"));
    headers.push(Header::new("connection", "close"));
    let response = Response { status, headers, body: Body::Text(String::from_str(reason)) };
    assert(response@.headers =~= error_headers());
    response
}

} // verus!
