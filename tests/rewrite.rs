use gateserver::html::insert_base_tag;
use gateserver::response::{Header, ProxyResult};
use gateserver::reverse_proxy::{is_html, rewrite_upstream_response, upstream_uri};

fn header(name: &str, value: &str) -> Header {
    Header { name: name.to_string(), value: value.as_bytes().to_vec() }
}

fn rewritten(doc: &str, href: &str) -> String {
    let mut s = doc.to_string();
    insert_base_tag(&mut s, href);
    s
}

#[test]
fn base_tag_goes_right_after_head() {
    assert_eq!(
        rewritten("<html><head><title>x</title></head><body/></html>", "http://up/"),
        "<html><head><base href=\"http://up/\"><title>x</title></head><body/></html>"
    );
}

#[test]
fn headless_document_gets_synthetic_head() {
    assert_eq!(
        rewritten("<html><body>hi</body></html>", "http://up/"),
        "<head><base href=\"http://up/\"></head><html><body>hi</body></html>"
    );
    assert_eq!(rewritten("", "x"), "<head><base href=\"x\"></head>");
}

#[test]
fn head_with_attributes_gets_tag_after_its_close() {
    assert_eq!(
        rewritten("<html><head lang=\"en\"><meta></head></html>", "http://up/"),
        "<html><head lang=\"en\"><base href=\"http://up/\"><meta></head></html>"
    );
}

#[test]
fn earlier_head_with_attributes_wins_over_later_bare_head() {
    assert_eq!(
        rewritten("<head id=1></head><head>", "b"),
        "<head id=1><base href=\"b\"></head><head>"
    );
    assert_eq!(
        rewritten("<head id=\"a\"><p><head>", "b"),
        "<head id=\"a\"><base href=\"b\"><p><head>"
    );
}

#[test]
fn earlier_bare_head_wins_over_later_head_with_attributes() {
    assert_eq!(rewritten("<head><head lang=x>", "b"), "<head><base href=\"b\"><head lang=x>");
}

#[test]
fn unclosed_head_with_attributes_counts_as_no_head() {
    assert_eq!(rewritten("<head lang", "b"), "<head><base href=\"b\"></head><head lang");
}

#[test]
fn only_first_head_is_rewritten_and_unicode_is_kept() {
    assert_eq!(
        rewritten("é<head>ü<head>", "h"),
        "é<head><base href=\"h\">ü<head>"
    );
}

#[test]
fn upstream_uri_strips_prefix_once() {
    assert_eq!(upstream_uri("/rp/index.html?a=1", "/rp", "http://up"), "http://up/index.html?a=1");
    assert_eq!(upstream_uri("/rp/rp/x", "/rp", "http://up"), "http://up/rp/x");
    assert_eq!(upstream_uri("/other", "/rp", "http://up"), "http://up/other");
    assert_eq!(upstream_uri("/x", "", "http://up"), "http://up/x");
}

#[test]
fn html_content_type_detection() {
    assert!(is_html(&b"text/html; charset=utf-8".to_vec()));
    assert!(!is_html(&b"application/octet-stream".to_vec()));
    assert!(is_html(&vec![b't', b'e', b'x', b't', b'/', b'h', b't', b'm', b'l', 0xff]));
    assert!(!is_html(&b"text/htm".to_vec()));
    assert!(is_html(&b"text/html\t".to_vec()));
}

#[test]
fn html_response_is_rewritten_without_content_length() {
    let upstream = ProxyResult {
        status: 200,
        headers: vec![header("content-type", "text/html"), header("content-length", "20"), header("x-a", "1")],
        body: b"<html><head></head></html>".to_vec(),
    };
    let r = rewrite_upstream_response(upstream, "http://up/");
    assert_eq!(r.status, 200);
    assert_eq!(r.headers.len(), 2);
    assert_eq!(r.headers[0].name, "content-type");
    assert_eq!(r.headers[1].name, "x-a");
    assert_eq!(r.headers[1].value, b"1".to_vec());
    assert_eq!(r.body, b"<html><head><base href=\"http://up/\"></head></html>".to_vec());
}

#[test]
fn html_response_that_is_not_utf8_becomes_empty_document() {
    let upstream = ProxyResult {
        status: 201,
        headers: vec![header("content-type", "text/html")],
        body: vec![0xff, 0xfe],
    };
    let r = rewrite_upstream_response(upstream, "u");
    assert_eq!(r.status, 201);
    assert_eq!(r.body, b"<head><base href=\"u\"></head>".to_vec());
}

#[test]
fn octet_stream_response_passes_unchanged() {
    let upstream = ProxyResult {
        status: 200,
        headers: vec![header("content-type", "application/octet-stream"), header("content-length", "3")],
        body: vec![1, 2, 3],
    };
    let r = rewrite_upstream_response(upstream, "http://up/");
    assert_eq!(r.status, 200);
    assert_eq!(r.headers.len(), 2);
    assert_eq!(r.headers[1].name, "content-length");
    assert_eq!(r.headers[1].value, b"3".to_vec());
    assert_eq!(r.body, vec![1, 2, 3]);
}

#[test]
fn response_without_content_type_passes_unchanged() {
    let upstream = ProxyResult { status: 302, headers: vec![header("location", "/")], body: b"<head>".to_vec() };
    let r = rewrite_upstream_response(upstream, "x");
    assert_eq!(r.status, 302);
    assert_eq!(r.body, b"<head>".to_vec());
}
