//! The reverse proxy: where a request goes upstream, and how an HTML answer
//! is rewritten on its way back.
use vstd::prelude::*;
use vstd::utf8::{valid_utf8, decode_utf8, encode_utf8};
use crate::text::{chars_of, find_from, first_occurrence, lemma_first_occurrence, occurs_at, strip_prefix, strip_prefix_once, utf8_text};
use crate::html::{insert_base_tag, with_base_tag};
use crate::response::{Header, ProxyResult};

verus! {

/// The upstream address of a request: one leading copy of the proxy's path
/// prefix is stripped from the request's path and query, and the rest
/// follows `forward_to`.
pub fn upstream_uri(path_and_query: &str, prefix: &str, forward_to: &str) -> (r: String)
    ensures
        r@ == forward_to@ + strip_prefix_once(path_and_query@, prefix@),
{
    let rest = strip_prefix(path_and_query, prefix);
    let mut r = String::from_str(forward_to);
    r.append(rest.as_str());
    r
}

/// The first value of the `content-type` header.
pub open spec fn first_content_type(hs: Seq<Header>) -> Option<Seq<u8>>
    decreases hs.len(),
{
    if hs.len() == 0 {
        None
    } else if hs[0].name@ == "content-type"@ {
        Some(hs[0].value@)
    } else {
        first_content_type(hs.drop_first())
    }
}

/// The characters of a header value, one per byte.
pub open spec fn byte_chars(v: Seq<u8>) -> Seq<char> {
    v.map_values(|b: u8| b as char)
}

/// A content type that contains `text/html`.
pub open spec fn is_html_type(v: Seq<u8>) -> bool {
    first_occurrence(byte_chars(v), "text/html"@, 0) is Some
}

/// An upstream response whose body the proxy rewrites.
pub open spec fn is_html_response(hs: Seq<Header>) -> bool {
    match first_content_type(hs) {
        Some(v) => is_html_type(v),
        None => false,
    }
}

/// The text of a body, or nothing when it is not UTF-8.
pub open spec fn text_or_empty(body: Seq<u8>) -> Seq<char> {
    if valid_utf8(body) { decode_utf8(body) } else { Seq::empty() }
}

pub open spec fn is_content_length(h: Header) -> bool {
    h.name@ == "content-length"@
}

/// Headers with every `content-length` left out.
pub open spec fn without_length(hs: Seq<Header>) -> Seq<Header>
    decreases hs.len(),
{
    if hs.len() == 0 {
        hs
    } else if is_content_length(hs.last()) {
        without_length(hs.drop_last())
    } else {
        without_length(hs.drop_last()).push(hs.last())
    }
}

/// What the proxy answers for an upstream response: an HTML one gets its
/// body rewritten and loses its `content-length`; any other passes unchanged.
pub open spec fn proxied(upstream: ProxyResult, forward_to: Seq<char>, r: ProxyResult) -> bool {
    if is_html_response(upstream.headers@) {
        &&& r.status == upstream.status
        &&& r.headers@ == without_length(upstream.headers@)
        &&& r.body@ == encode_utf8(with_base_tag(text_or_empty(upstream.body@), forward_to))
    } else {
        r == upstream
    }
}

fn content_type_index(hs: &Vec<Header>) -> (r: Option<usize>)
    ensures
        match r {
            Some(i) => i < hs@.len() && first_content_type(hs@) == Some(hs@[i as int].value@),
            None => first_content_type(hs@) is None,
        },
{
    let name = String::from_str("content-type");
    let mut i: usize = 0;
    assert(hs@.skip(0) =~= hs@);
    while i < hs.len()
        invariant
            name@ == "content-type"@,
            i <= hs.len(),
            first_content_type(hs@) == first_content_type(hs@.skip(i as int)),
        decreases hs.len() - i,
    {
        assert(hs@.skip(i as int).drop_first() =~= hs@.skip(i + 1));
        if hs[i].name == name {
            return Some(i);
        }
        i = i + 1;
    }
    None
}

/// Whether a content-type value contains `text/html`.
pub fn is_html(value: &Vec<u8>) -> (r: bool)
    ensures
        r == is_html_type(value@),
{
    let mut text: Vec<char> = Vec::new();
    let mut i: usize = 0;
    while i < value.len()
        invariant
            i <= value.len(),
            text@ == value@.take(i as int).map_values(|b: u8| b as char),
        decreases value.len() - i,
    {
        let b = value[i];
        text.push(b as char);
        assert(value@.take(i + 1).map_values(|b: u8| b as char)
            =~= value@.take(i as int).map_values(|b: u8| b as char).push(b as char));
        i = i + 1;
    }
    assert(value@.take(i as int) =~= value@);
    let pat = chars_of("text/html");
    find_from(&text, &pat, 0).is_some()
}

fn drop_content_length(headers: Vec<Header>) -> (r: Vec<Header>)
    ensures
        r@ == without_length(headers@),
{
    let ghost hs = headers@;
    let length = String::from_str("content-length");
    let mut kept: Vec<Header> = Vec::new();
    for h in it: headers.into_iter()
        invariant
            length@ == "content-length"@,
            it.seq() == hs,
            kept@ == without_length(hs.take(it.index() as int)),
    {
        let ghost i = it.index();
        proof {
            assert(hs.take(i + 1).drop_last() =~= hs.take(i as int));
            assert(hs.take(i + 1).last() == h);
        }
        if !(h.name == length) {
            kept.push(h);
        }
    }
    assert(hs.take(hs.len() as int) =~= hs);
    kept
}

/// The response the proxy sends back for `upstream`: an HTML page gets a
/// `<base href>` pointing at `forward_to` and loses its `content-length`;
/// anything else is passed through as it came.
pub fn rewrite_upstream_response(upstream: ProxyResult, forward_to: &str) -> (r: ProxyResult)
    ensures
        proxied(upstream, forward_to@, r),
{
    let html = match content_type_index(&upstream.headers) {
        Some(i) => is_html(&upstream.headers[i].value),
        None => false,
    };
    if !html {
        return upstream;
    }
    let ProxyResult { status, headers, body } = upstream;
    let mut contents = match utf8_text(body.as_slice()) {
        Some(text) => String::from_str(text),
        None => String::new(),
    };
    insert_base_tag(&mut contents, forward_to);
    let new_body = vstd::slice::slice_to_vec(contents.as_str().as_bytes());
    ProxyResult { status, headers: drop_content_length(headers), body: new_body }
}

/// A response that the upstream marks as `application/octet-stream` is
/// passed on exactly: status, every header (`content-length` included) and
/// body.
pub proof fn lemma_octet_stream_passthrough(upstream: ProxyResult, forward_to: Seq<char>, r: ProxyResult)
    requires
        first_content_type(upstream.headers@) == Some("application/octet-stream"@.map_values(|c: char| c as u8)),
        proxied(upstream, forward_to, r),
    ensures
        r == upstream,
{
    reveal_strlit("application/octet-stream");
    reveal_strlit("text/html");
    let v = "application/octet-stream"@.map_values(|c: char| c as u8);
    let text = v.map_values(|b: u8| b as char);
    assert(text =~= "application/octet-stream"@);
    assert forall|j: int| !occurs_at(text, "text/html"@, j) by {
        if occurs_at(text, "text/html"@, j) {
            assert(text.subrange(j, j + 9)[4] == '/');
            assert(text.subrange(j, j + 9)[1] == 'e');
            assert(0 <= j <= 15);
            if j == 7 {
                assert(text[j + 1] != 'e');
            } else {
                assert(text[j + 4] != '/');
            }
        }
    }
    lemma_first_occurrence(text, "text/html"@, 0);
}

} // verus!
