use std::str::FromStr;

use http::uri::PathAndQuery;
use http::Uri;
use net_infra::params::{ConnectionParams, RootCertificates};
use net_infra::request::{
    basic_authorization, basic_authorization_value, Header, HttpRequestDecorator,
    HttpRequestDecoratorSeq, RequestHead,
};

fn head_of(uri: &Uri) -> RequestHead {
    RequestHead {
        path_and_query: uri.path_and_query().map(|pq| pq.as_str().to_string()),
        headers: Vec::new(),
    }
}

fn uri_with(uri: Uri, head: &RequestHead) -> Uri {
    let mut parts = uri.into_parts();
    parts.path_and_query = head
        .path_and_query
        .as_ref()
        .map(|pq| PathAndQuery::from_str(pq.as_str()).expect("valid path and query"));
    Uri::from_parts(parts).expect("valid uri")
}

#[test]
fn test_path_prefix_decorator() {
    let cases = vec![
        ("https://chat.signal.org/", "/chat/"),
        ("https://chat.signal.org/v1", "/chat/v1"),
        ("https://chat.signal.org/v1?a=b", "/chat/v1"),
        ("https://chat.signal.org/v1/endpoint", "/chat/v1/endpoint"),
    ];
    for (input, expected_path) in cases.into_iter() {
        let uri = Uri::from_str(input).unwrap();
        let head = head_of(&uri);
        let head = HttpRequestDecorator::PathPrefix("/chat").decorate_request(head);
        let decorated = uri_with(uri, &head);
        assert_eq!(expected_path, decorated.path(), "for input [{}]", input)
    }
}

#[test]
fn test_header_auth_decorator() {
    let expected = "Basic dXNybm06cHNzd2Q=";
    let uri = Uri::from_str("https://chat.signal.org/").unwrap();
    let head = head_of(&uri);
    let head = HttpRequestDecorator::HeaderAuth(basic_authorization("usrnm", "psswd"))
        .decorate_request(head);
    let mut builder = http::Request::get(uri_with(uri, &head));
    for Header { name, value } in head.headers.iter() {
        builder = builder.header(name.as_str(), value.as_str());
    }
    let (parts, _) = builder.body(()).unwrap().into_parts();
    assert_eq!(
        expected,
        parts.headers.get(http::header::AUTHORIZATION).unwrap()
    );
}

#[test]
fn path_prefix_keeps_query() {
    let head = RequestHead { path_and_query: Some("/v1?a=b".to_string()), headers: Vec::new() };
    let head = HttpRequestDecorator::PathPrefix("/chat").decorate_request(head);
    assert_eq!(head.path_and_query.as_deref(), Some("/chat/v1?a=b"));
    assert!(head.headers.is_empty());
}

#[test]
fn path_prefix_without_path_is_the_prefix() {
    let head = RequestHead { path_and_query: None, headers: Vec::new() };
    let head = HttpRequestDecorator::PathPrefix("/chat").decorate_request(head);
    assert_eq!(head.path_and_query.as_deref(), Some("/chat"));
}

#[test]
fn path_prefix_twice_is_applied_twice() {
    let head = RequestHead { path_and_query: Some("/v1".to_string()), headers: Vec::new() };
    let dec = HttpRequestDecorator::PathPrefix("/chat");
    let head = dec.decorate_request(dec.decorate_request(head));
    assert_eq!(head.path_and_query.as_deref(), Some("/chat/chat/v1"));
}

#[test]
fn header_auth_appends_authorization_header() {
    let head = RequestHead {
        path_and_query: Some("/".to_string()),
        headers: vec![Header { name: "x-first".to_string(), value: "1".to_string() }],
    };
    let head = HttpRequestDecorator::HeaderAuth("Basic abc".to_string()).decorate_request(head);
    assert_eq!(head.path_and_query.as_deref(), Some("/"));
    assert_eq!(head.headers.len(), 2);
    assert_eq!(head.headers[0].name, "x-first");
    assert_eq!(head.headers[1].name, "authorization");
    assert_eq!(head.headers[1].value, "Basic abc");
}

#[test]
fn basic_authorization_encodes_credentials() {
    assert_eq!(basic_authorization("usrnm", "psswd"), "Basic dXNybm06cHNzd2Q=");
    assert_eq!(basic_authorization("", ""), "Basic Og==");
    assert_eq!(basic_authorization("a", "b"), "Basic YTpi");
    assert_eq!(basic_authorization_value("YTpi"), "Basic YTpi");
}

#[test]
fn decorator_sequence_applies_in_order() {
    let mut decorators = HttpRequestDecoratorSeq::from(HttpRequestDecorator::PathPrefix("/b"));
    decorators.push(HttpRequestDecorator::PathPrefix("/a"));
    decorators.push(HttpRequestDecorator::HeaderAuth("Basic xyz".to_string()));
    assert_eq!(decorators.len(), 3);
    let head = RequestHead { path_and_query: Some("/c".to_string()), headers: Vec::new() };
    let head = decorators.decorate_request(head);
    assert_eq!(head.path_and_query.as_deref(), Some("/a/b/c"));
    assert_eq!(head.headers.len(), 1);
    assert_eq!(head.headers[0].value, "Basic xyz");
}

#[test]
fn empty_decorator_sequence_changes_nothing() {
    let decorators = HttpRequestDecoratorSeq::default();
    assert_eq!(decorators.len(), 0);
    let head = RequestHead { path_and_query: Some("/c?x=1".to_string()), headers: Vec::new() };
    let head = decorators.decorate_request(head);
    assert_eq!(head.path_and_query.as_deref(), Some("/c?x=1"));
    assert!(head.headers.is_empty());
}

#[test]
fn connection_params_builders() {
    let params = ConnectionParams::new(
        "sni.example",
        "host.example",
        443,
        HttpRequestDecoratorSeq::default(),
        RootCertificates::Signal,
    );
    assert_eq!(params.sni, "sni.example");
    assert_eq!(params.host, "host.example");
    assert_eq!(params.port, 443);
    assert_eq!(params.certs, RootCertificates::Signal);
    let params = params
        .with_decorator(HttpRequestDecorator::PathPrefix("/chat"))
        .with_decorator(HttpRequestDecorator::PathPrefix("/chat"))
        .with_certs(RootCertificates::Native);
    assert_eq!(params.certs, RootCertificates::Native);
    assert_eq!(params.http_request_decorator.len(), 2);
    assert_eq!(params.sni, "sni.example");
    let head = RequestHead { path_and_query: Some("/v1".to_string()), headers: Vec::new() };
    let head = params.http_request_decorator.decorate_request(head);
    assert_eq!(head.path_and_query.as_deref(), Some("/chat/chat/v1"));
}
