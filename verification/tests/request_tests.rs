use common::pkg::http::request::{request_target, RequestError};

#[test]
fn valid_requests_pass() {
    assert_eq!(request_target("https://api.github.com/repos/o/r/issues", "POST"), Ok(()));
    assert_eq!(request_target("https://qyapi.weixin.qq.com/cgi-bin/webhook/send?key=", "GET"), Ok(()));
    assert_eq!(request_target("http://localhost:8080/x", "CUSTOM-method_1"), Ok(()));
}

#[test]
fn bad_method_is_refused_first() {
    assert_eq!(request_target("https://example.com", ""), Err(RequestError::Method));
    assert_eq!(request_target("https://example.com", "GE T"), Err(RequestError::Method));
    assert_eq!(request_target("https://example.com", "GËT"), Err(RequestError::Method));
    assert_eq!(request_target("not a url", "PO(ST"), Err(RequestError::Method));
}

#[test]
fn bad_address_is_refused() {
    assert_eq!(request_target("not a url", "GET"), Err(RequestError::Url));
    assert_eq!(request_target("", "POST"), Err(RequestError::Url));
    assert_eq!(request_target("/relative/path", "GET"), Err(RequestError::Url));
}
