use actor_interfaces::http_server::{Method, Request, Response};

fn test_request(path: &str) -> Request {
    Request {
        method: "GET".to_string(),
        body: Vec::new(),
        header: Vec::new(),
        path: path.to_string(),
        query_string: "".to_string(),
    }
}

#[test]
fn empty() {
    let request = test_request("");
    let segments = request.path_segments();
    assert_eq!(segments.clone().len(), 0);
}

#[test]
fn single_slash() {
    let request = test_request("/");
    let segments = request.path_segments();
    assert_eq!(segments.clone().len(), 0);
}

#[test]
fn single() {
    let request = test_request("/foo");
    let segments = request.path_segments();
    assert_eq!(segments.clone().len(), 1);
}

#[test]
fn trailing_slash() {
    let request = test_request("/foo/");
    let segments = request.path_segments();
    assert_eq!(segments.clone().len(), 1);
}

#[test]
fn path_segments_are_the_pieces_between_slashes() {
    assert_eq!(test_request("/v0/users/42").path_segments(), vec!["v0", "users", "42"]);
    assert_eq!(test_request("//a//b/").path_segments(), vec!["a", "b"]);
    assert_eq!(test_request("no-slash").path_segments(), Vec::<String>::new());
    assert_eq!(test_request("/héllo/wörld").path_segments(), vec!["héllo", "wörld"]);
}

#[test]
fn method_names_in_any_case() {
    assert_eq!(Method::parse("post"), Method::Post);
    assert_eq!(Method::parse("  Put \n"), Method::Put);
    assert_eq!(Method::parse("DELETE"), Method::Delete);
    assert_eq!(Method::parse("options"), Method::Options);
    assert_eq!(Method::parse("head"), Method::Head);
    assert_eq!(Method::parse("trace"), Method::Trace);
    assert_eq!(Method::parse("connect"), Method::Connect);
    assert_eq!(Method::parse("patch"), Method::Patch);
    assert_eq!(Method::parse("\u{3000}post\u{a0}"), Method::Post);
    assert_eq!(Method::parse("\u{200b}post"), Method::Get);
    assert_eq!(Method::parse("brew"), Method::Get);
    assert_eq!(Method::parse(""), Method::Get);
    assert_eq!("get".parse::<Method>().unwrap(), Method::Get);
    let mut r = test_request("/");
    r.method = "post".to_string();
    assert_eq!(r.method(), Method::Post);
}

#[test]
fn response_shortcuts() {
    let r = Response::ok();
    assert_eq!((r.status_code, r.status.as_str(), r.body.len()), (200, "OK", 0));
    let r = Response::not_found();
    assert_eq!((r.status_code, r.status.as_str()), (404, "Not Found"));
    let r = Response::bad_request();
    assert_eq!((r.status_code, r.status.as_str()), (400, "Bad Request"));
    let r = Response::internal_server_error("boom");
    assert_eq!((r.status_code, r.status.as_str()), (500, "Internal Server Error"));
    assert_eq!(r.body, b"boom".to_vec());
    assert!(r.header.is_empty());
}
