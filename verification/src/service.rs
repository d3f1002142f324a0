//! The request handler: which response a request gets.
//!
//! Handling a request for a file takes two answers from the file system,
//! which this library does not ask itself. `FsService::call` decides what it
//! can from the request alone; where a file has to be looked up it says which
//! path to look at. `FsService::locate` takes in whether that path is a
//! directory and names the file to read and its media type, and
//! `FsService::respond` turns what reading it gave into the response.

use crate::http::{error_response, error_response_view, Body, BodyView, Header, Method, Request,
    RequestView, Response, ResponseView, Status};
use crate::index::{index_page, render};
use crate::media::{guess_media_type, guessed_media_type};
use crate::resolver::{directory_index, is_contained, joined, resolve, resolved, DIRECTORY_INDEX};
use crate::server::{ServerConfig, ServerConfigView};
use crate::text::same_text;
use crate::units::UnitView;
use vstd::prelude::*;

verus! {

/// The body of the response to a request for a file that is not there.
pub const NOT_FOUND_REASON: &'static str = "No such file or directory";

/// The body of the response to a request for a file that may not be read.
pub const FORBIDDEN_REASON: &'static str = "Permission denied";

/// The media type of the index page.
pub const INDEX_MEDIA_TYPE: &'static str = "text/html";

/// How reading a file ended.
#[derive(Clone, Debug, PartialEq, Eq)]
pub enum ReadOutcome {
    /// The whole content of the file.
    Content(Vec<u8>),
    NotFound,
    PermissionDenied,
    /// Any other failure, with the text of the error.
    Failed(String),
}

pub enum ReadOutcomeView {
    Content(Seq<u8>),
    NotFound,
    PermissionDenied,
    Failed(Seq<char>),
}

impl View for ReadOutcome {
    type V = ReadOutcomeView;

    open spec fn view(&self) -> ReadOutcomeView {
        match self {
            ReadOutcome::Content(bytes) => ReadOutcomeView::Content(bytes@),
            ReadOutcome::NotFound => ReadOutcomeView::NotFound,
            ReadOutcome::PermissionDenied => ReadOutcomeView::PermissionDenied,
            ReadOutcome::Failed(text) => ReadOutcomeView::Failed(text@),
        }
    }
}

/// What `FsService::call` decided.
#[derive(Clone, Debug, PartialEq, Eq)]
pub enum Reply {
    /// The response is settled.
    Done(Response),
    /// A file has to be looked up, starting at this path under the root.
    Lookup(String),
}

pub enum ReplyView {
    Done(ResponseView),
    Lookup(Seq<char>),
}

impl View for Reply {
    type V = ReplyView;

    open spec fn view(&self) -> ReplyView {
        match self {
            Reply::Done(response) => ReplyView::Done(response@),
            Reply::Lookup(path) => ReplyView::Lookup(path@),
        }
    }
}

/// The file to read for a request, and the media type to send it with.
#[derive(Clone, Debug, PartialEq, Eq)]
pub struct FileRequest {
    pub path: String,
    pub content_type: String,
}

/// The response that carries the index page for `units`.
pub open spec fn index_response(units: Seq<UnitView>) -> ResponseView {
    ResponseView {
        status: Status::Success,
        headers: seq![("content-type"@, INDEX_MEDIA_TYPE@)],
        body: BodyView::Text(index_page(units)),
    }
}

pub open spec fn method_not_allowed_response() -> ResponseView {
    error_response_view(Status::MethodNotAllowed, Seq::empty())
}

pub open spec fn not_found_response() -> ResponseView {
    error_response_view(Status::NotFound, NOT_FOUND_REASON@)
}

/// Whether a request path asks for the index page.
pub open spec fn is_index_path(path: Seq<char>) -> bool {
    path == "/"@ || path == "/index.html"@
}

/// What a request is answered with, as far as the request alone decides it.
///
/// In this order: a method other than `GET` is not allowed; the index paths
/// get the index page; a path that would leave the root is not found; any
/// other path is looked up under the root.
pub open spec fn reply_to(config: ServerConfigView, request: RequestView) -> ReplyView {
    if request.method != Method::Get {
        ReplyView::Done(method_not_allowed_response())
    } else if is_index_path(request.path) {
        ReplyView::Done(index_response(config.targets))
    } else {
        match resolved(config.doc_dir, request.path) {
            Some(path) => ReplyView::Lookup(path),
            None => ReplyView::Done(not_found_response()),
        }
    }
}

/// The file to read where `candidate` is what the request path resolved to:
/// the index file inside it if it is a directory, else `candidate` itself.
pub open spec fn located(candidate: Seq<char>, is_dir: bool) -> Seq<char> {
    if is_dir {
        joined(candidate, DIRECTORY_INDEX@)
    } else {
        candidate
    }
}

/// The response to a request for a file, given how reading the file ended.
pub open spec fn file_response(content_type: Seq<char>, outcome: ReadOutcomeView) -> ResponseView {
    match outcome {
        ReadOutcomeView::Content(bytes) => ResponseView {
            status: Status::Success,
            headers: seq![("content-type"@, content_type)],
            body: BodyView::Bytes(bytes),
        },
        ReadOutcomeView::NotFound => not_found_response(),
        ReadOutcomeView::PermissionDenied => error_response_view(
            Status::Forbidden,
            FORBIDDEN_REASON@,
        ),
        ReadOutcomeView::Failed(text) => error_response_view(Status::InternalServerError, text),
    }
}

/// The request handler of one server instance.
#[derive(Clone, Debug)]
pub struct FsService {
    pub config: ServerConfig,
}

impl View for FsService {
    type V = ServerConfigView;

    open spec fn view(&self) -> ServerConfigView {
        self.config@
    }
}

impl FsService {
    pub fn new(config: ServerConfig) -> (service: FsService)
        ensures
            service@ == config@,
    {
        FsService { config }
    }

    /// The response that carries the index page.
    pub fn render_index(&self) -> (response: Response)
        ensures
            response@ == index_response(self@.targets),
    {
        let mut headers: Vec<Header> = Vec::new();
        headers.push(Header::new("content-type", INDEX_MEDIA_TYPE));
        let response = Response {
            status: Status::Success,
            headers,
            body: Body::Text(render(&self.config.targets)),
        };
        assert(response@.headers =~= seq![("content-type"@, INDEX_MEDIA_TYPE@)]);
        response
    }

    /// The path under the documentation root that a request path stands
    /// for, or `None` if the request path would leave the root.
    pub fn resolve_path(&self, path: &str) -> (found: Option<String>)
        ensures
            match found {
                Some(file) => resolved(self@.doc_dir, path@) == Some(file@),
                None => resolved(self@.doc_dir, path@) is None,
            },
    {
        resolve(self.config.doc_dir.as_str(), path)
    }

    /// Decides what the request alone decides.
    pub fn call(&self, request: &Request) -> (reply: Reply)
        ensures
            reply@ == reply_to(self@, request@),
    {
        match request.method {
            Method::Get => {},
            _ => {
                proof {
                    reveal_strlit("");
                    assert(""@ =~= Seq::<char>::empty());
                }
                return Reply::Done(error_response(Status::MethodNotAllowed, ""));
            },
        }
        let path = request.path.as_str();
        if same_text(path, "/") || same_text(path, "/index.html") {
            return Reply::Done(self.render_index());
        }
        match self.resolve_path(path) {
            Some(file) => Reply::Lookup(file),
            None => Reply::Done(error_response(Status::NotFound, NOT_FOUND_REASON)),
        }
    }

    /// Names the file to read and its media type, once it is known whether
    /// the path that `call` gave is a directory.
    pub fn locate(candidate: &str, is_dir: bool) -> (file: FileRequest)
        ensures
            file.path@ == located(candidate@, is_dir),
            file.content_type@ == guessed_media_type(file.path@),
    {
        let path = if is_dir {
            directory_index(candidate)
        } else {
            String::from_str(candidate)
        };
        let content_type = guess_media_type(path.as_str());
        FileRequest { path, content_type }
    }

    /// The response to a request for a file, given how reading it ended.
    pub fn respond(content_type: &str, outcome: ReadOutcome) -> (response: Response)
        ensures
            response@ == file_response(content_type@, outcome@),
    {
        match outcome {
            ReadOutcome::Content(bytes) => {
                let mut headers: Vec<Header> = Vec::new();
                headers.push(Header::new("content-type", content_type));
                let response = Response {
                    status: Status::Success,
                    headers,
                    body: Body::Bytes(bytes),
                };
                assert(response@.headers =~= seq![("content-type"@, content_type@)]);
                response
            },
            ReadOutcome::NotFound => error_response(Status::NotFound, NOT_FOUND_REASON),
            ReadOutcome::PermissionDenied => error_response(Status::Forbidden, FORBIDDEN_REASON),
            ReadOutcome::Failed(text) => error_response(
                Status::InternalServerError,
                text.as_str(),
            ),
        }
    }
}

/// Every method but `GET` is answered with `405` and an empty body, whatever
/// the path and whatever is served.
pub proof fn lemma_only_get_is_served(config: ServerConfigView, request: RequestView)
    requires
        request.method != Method::Get,
    ensures
        reply_to(config, request) == ReplyView::Done(method_not_allowed_response()),
        method_not_allowed_response().status.code_spec() == 405,
        method_not_allowed_response().body.is_empty(),
{
}

/// A path that would leave the root is answered with `404` before any file
/// is looked at, and with the very response that a missing file gets.
pub proof fn lemma_escaping_path_is_not_found(
    config: ServerConfigView,
    request: RequestView,
    content_type: Seq<char>,
)
    requires
        request.method == Method::Get,
        !is_index_path(request.path),
        !is_contained(request.path),
    ensures
        reply_to(config, request) == ReplyView::Done(not_found_response()),
        not_found_response().status.code_spec() == 404,
        not_found_response() == file_response(content_type, ReadOutcomeView::NotFound),
{
}

/// Every error response forbids caching and closes the connection.
pub proof fn lemma_error_responses_close(content_type: Seq<char>, outcome: ReadOutcomeView)
    ensures
        method_not_allowed_response().has_header("cache-control"@, "no-cache"@),
        method_not_allowed_response().has_header("connection"@, "close"@),
        file_response(content_type, outcome).status.is_error() ==> {
            &&& file_response(content_type, outcome).has_header("cache-control"@, "no-cache"@)
            &&& file_response(content_type, outcome).has_header("connection"@, "close"@)
        },
{
    let headers = crate::http::error_headers();
    assert(headers[0] == ("cache-control"@, "no-cache"@));
    assert(headers[1] == ("connection"@, "close"@));
}

/// Whatever is served, a `GET` of either index path is answered with `200`
/// and the index page of the units that the instance was configured with.
pub proof fn lemma_index_is_always_served(config: ServerConfigView, request: RequestView)
    requires
        request.method == Method::Get,
        is_index_path(request.path),
    ensures
        reply_to(config, request) == ReplyView::Done(index_response(config.targets)),
        index_response(config.targets).status.code_spec() == 200,
        index_response(config.targets).body == BodyView::Text(index_page(config.targets)),
{
}

} // verus!
