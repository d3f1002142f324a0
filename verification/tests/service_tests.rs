use cargo_docserve::http::{error_response, Body, Header, Method, Request, Response, Status};
use cargo_docserve::service::{
    FileRequest, FsService, ReadOutcome, Reply, FORBIDDEN_REASON, NOT_FOUND_REASON,
};
use cargo_docserve::index::render;
use cargo_docserve::server::{BindAddress, ServerConfig};
use cargo_docserve::units::{DocumentableUnit, TargetKind};

fn service() -> FsService {
    FsService::new(ServerConfig {
        doc_dir: String::from("/srv/doc"),
        targets: vec![DocumentableUnit::new("core", TargetKind::Lib)],
        addr: BindAddress::default_local(),
    })
}

fn error_headers() -> Vec<Header> {
    vec![Header::new("cache-control", "no-cache"), Header::new("connection", "close")]
}

#[test]
fn every_method_but_get_is_refused_on_every_path() {
    let methods = [
        Method::Head,
        Method::Post,
        Method::Put,
        Method::Delete,
        Method::Connect,
        Method::Options,
        Method::Trace,
        Method::Patch,
        Method::Other,
    ];
    let paths = ["/", "/index.html", "/core/index.html", "/../x", "", "//", "/missing"];
    for method in methods {
        for path in paths {
            let reply = service().call(&Request::new(method, path));
            let expected = Response {
                status: Status::MethodNotAllowed,
                headers: error_headers(),
                body: Body::Text(String::new()),
            };
            assert_eq!(reply, Reply::Done(expected));
        }
    }
}

#[test]
fn both_index_paths_give_the_index_page() {
    for path in ["/", "/index.html"] {
        let reply = service().call(&Request::new(Method::Get, path));
        let expected = Response {
            status: Status::Success,
            headers: vec![Header::new("content-type", "text/html")],
            body: Body::Text(render(&service().config.targets)),
        };
        assert_eq!(reply, Reply::Done(expected));
    }
}

#[test]
fn render_index_is_the_reply_to_the_index_path() {
    let response = service().render_index();
    assert_eq!(
        service().call(&Request::new(Method::Get, "/")),
        Reply::Done(response)
    );
}

#[test]
fn other_paths_are_looked_up_under_the_root() {
    assert_eq!(
        service().call(&Request::new(Method::Get, "/core/index.html")),
        Reply::Lookup(String::from("/srv/doc/core/index.html"))
    );
    assert_eq!(
        service().call(&Request::new(Method::Get, "/index.htm")),
        Reply::Lookup(String::from("/srv/doc/index.htm"))
    );
    assert_eq!(
        service().call(&Request::new(Method::Get, "/core/")),
        Reply::Lookup(String::from("/srv/doc/core/"))
    );
}

#[test]
fn resolve_path_uses_the_configured_root() {
    assert_eq!(
        service().resolve_path("/a/b.js"),
        Some(String::from("/srv/doc/a/b.js"))
    );
    assert_eq!(service().resolve_path("/a/../../b.js"), None);
}

#[test]
fn escaping_paths_get_the_response_of_a_missing_file() {
    let missing = FsService::respond("application/octet-stream", ReadOutcome::NotFound);
    for path in ["/..", "/../../etc/passwd", "/a/../../b", "//etc/passwd"] {
        assert_eq!(
            service().call(&Request::new(Method::Get, path)),
            Reply::Done(missing.clone())
        );
    }
}

#[test]
fn locate_names_the_file_and_guesses_its_type() {
    assert_eq!(
        FsService::locate("/srv/doc/core/index.html", false),
        FileRequest {
            path: String::from("/srv/doc/core/index.html"),
            content_type: String::from("text/html"),
        }
    );
    assert_eq!(
        FsService::locate("/srv/doc/core", true),
        FileRequest {
            path: String::from("/srv/doc/core/index.html"),
            content_type: String::from("text/html"),
        }
    );
    assert_eq!(FsService::locate("a/main.css", false).content_type, "text/css");
    assert_eq!(FsService::locate("a/logo.PNG", false).content_type, "image/png");
}

#[test]
fn unknown_extensions_fall_back_to_a_binary_type() {
    assert_eq!(
        FsService::locate("a/file.no-such-extension", false).content_type,
        "application/octet-stream"
    );
    assert_eq!(
        FsService::locate("a/README", false).content_type,
        "application/octet-stream"
    );
    assert_eq!(FsService::locate("a.dir/file", false).path, "a.dir/file");
}

#[test]
fn content_is_sent_whole_with_its_type() {
    let response = FsService::respond("text/css", ReadOutcome::Content(vec![1, 2, 3]));
    assert_eq!(
        response,
        Response {
            status: Status::Success,
            headers: vec![Header::new("content-type", "text/css")],
            body: Body::Bytes(vec![1, 2, 3]),
        }
    );
    assert_eq!(response.status.code(), 200);
}

#[test]
fn read_failures_map_to_statuses() {
    let not_found = FsService::respond("text/css", ReadOutcome::NotFound);
    assert_eq!(
        not_found,
        Response {
            status: Status::NotFound,
            headers: error_headers(),
            body: Body::Text(String::from(NOT_FOUND_REASON)),
        }
    );
    let forbidden = FsService::respond("text/css", ReadOutcome::PermissionDenied);
    assert_eq!(
        forbidden,
        Response {
            status: Status::Forbidden,
            headers: error_headers(),
            body: Body::Text(String::from(FORBIDDEN_REASON)),
        }
    );
    assert_eq!(forbidden.status.code(), 403);
    let failed = FsService::respond(
        "text/css",
        ReadOutcome::Failed(String::from("Is a directory (os error 21)")),
    );
    assert_eq!(
        failed,
        Response {
            status: Status::InternalServerError,
            headers: error_headers(),
            body: Body::Text(String::from("Is a directory (os error 21)")),
        }
    );
    assert_eq!(failed.status.code(), 500);
}

#[test]
fn error_response_carries_status_reason_and_headers() {
    let response = error_response(Status::Forbidden, "no");
    assert_eq!(response.status, Status::Forbidden);
    assert_eq!(response.headers, error_headers());
    assert_eq!(response.body, Body::Text(String::from("no")));
}

#[test]
fn method_tokens_are_read_case_sensitively() {
    assert_eq!(Method::from_token("GET"), Method::Get);
    assert_eq!(Method::from_token("HEAD"), Method::Head);
    assert_eq!(Method::from_token("POST"), Method::Post);
    assert_eq!(Method::from_token("PUT"), Method::Put);
    assert_eq!(Method::from_token("DELETE"), Method::Delete);
    assert_eq!(Method::from_token("CONNECT"), Method::Connect);
    assert_eq!(Method::from_token("OPTIONS"), Method::Options);
    assert_eq!(Method::from_token("TRACE"), Method::Trace);
    assert_eq!(Method::from_token("PATCH"), Method::Patch);
    assert_eq!(Method::from_token("get"), Method::Other);
    assert_eq!(Method::from_token("GETS"), Method::Other);
    assert_eq!(Method::from_token("GE"), Method::Other);
    assert_eq!(Method::from_token(""), Method::Other);
    assert_eq!(Method::from_token("PROPFIND"), Method::Other);
}

#[test]
fn status_codes() {
    assert_eq!(Status::Success.code(), 200);
    assert_eq!(Status::Forbidden.code(), 403);
    assert_eq!(Status::NotFound.code(), 404);
    assert_eq!(Status::MethodNotAllowed.code(), 405);
    assert_eq!(Status::InternalServerError.code(), 500);
}
