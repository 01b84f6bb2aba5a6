//! Static files of the web application, the API probe and the default
//! not-found page.
use vstd::prelude::*;
use vstd::utf8::encode_utf8;
use crate::config::WebConfig;
use crate::response::{Header, ProxyResult, NOT_FOUND, OK, json_response, is_json_response, ascii_bytes};
use crate::text::{trim_start, trim_start_matches};

verus! {

/// The page shown for a path that nothing serves, around its message.
pub open spec fn not_found_page_spec(message: Seq<char>) -> Seq<char> {
    "<!DOCTYPE html><html><head><meta charset=\"utf-8\"><title>404 Not Found</title></head><body><h1>404 Not Found</h1><p>"@
        + message + "</p></body></html>"@
}

/// The not-found page that shows `message`.
pub fn not_found_page(message: &str) -> (r: String)
    ensures
        r@ == not_found_page_spec(message@),
{
    let mut r = String::from_str(
        "<!DOCTYPE html><html><head><meta charset=\"utf-8\"><title>404 Not Found</title></head><body><h1>404 Not Found</h1><p>",
    );
    r.append(message);
    r.append("</p></body></html>");
    r
}

/// A 404 response whose body is the not-found page for `message`.
pub open spec fn is_not_found(r: ProxyResult, message: Seq<char>) -> bool {
    &&& r.status == NOT_FOUND
    &&& r.headers@.len() == 0
    &&& r.body@ == encode_utf8(not_found_page_spec(message))
}

fn not_found_response(message: &str) -> (r: ProxyResult)
    ensures
        is_not_found(r, message@),
{
    let page = not_found_page(message);
    let body = vstd::slice::slice_to_vec(page.as_str().as_bytes());
    ProxyResult { status: NOT_FOUND, headers: Vec::new(), body }
}

/// The answer for a path that no route serves.
pub fn handle_default(path: &str) -> (r: ProxyResult)
    ensures
        is_not_found(r, "Path '"@ + path@ + "' is not set up"@),
{
    let mut message = String::from_str("Path '");
    message.append(path);
    message.append("' is not set up");
    not_found_response(message.as_str())
}

/// The answer of the API probe: an empty JSON object.
pub fn test_api() -> (r: ProxyResult)
    ensures
        is_json_response(r, "{}"@.map_values(|c: char| c as u8)),
{
    json_response(ascii_bytes("{}"))
}

/// Whether a request path names a client-side route rather than a file:
/// a path with no `.` in it.
pub fn is_virtual_route(path: &str) -> (r: bool)
    ensures
        r == !path@.contains('.'),
{
    let n = path.unicode_len();
    let mut i: usize = 0;
    while i < n
        invariant
            n == path@.len(),
            i <= n,
            forall|j: int| 0 <= j < i ==> path@[j] != '.',
        decreases n - i,
    {
        if path.get_char(i) == '.' {
            return false;
        }
        i = i + 1;
    }
    true
}

/// A request for a file of the web application.
pub struct FileRequest {
    /// The request path below the application's path, without leading `/`.
    pub relative: String,
    /// Where that file would be: `{dist_path}/{relative}`.
    pub file_path: String,
}

/// Which file a request path asks for.
pub fn locate_file(uri_path: &str, web: &WebConfig) -> (r: FileRequest)
    ensures
        r.relative@ == trim_start(trim_start(uri_path@, web.path@), "/"@),
        r.file_path@ == web.dist_path@ + "/"@ + r.relative@,
{
    let below = trim_start_matches(uri_path, web.path.as_str());
    let relative = trim_start_matches(below.as_str(), "/");
    let mut file_path = web.dist_path.clone();
    file_path.append("/");
    file_path.append(relative.as_str());
    FileRequest { relative, file_path }
}

/// What answers a file request.
pub enum WebTarget {
    /// Send the file at this path.
    Serve(String),
    /// Nothing is there: the not-found page for this message.
    Missing(String),
}

pub open spec fn index_path(web: WebConfig) -> Seq<char> {
    web.dist_path@ + "/index.html"@
}

/// Which file answers a request: the index page for the application's own
/// path, an existing file as it is, the index page for a client-side route
/// when the application routes on the client, and otherwise nothing.
pub fn choose_file(req: &FileRequest, web: &WebConfig, exists: bool) -> (r: WebTarget)
    ensures
        req.relative@.len() == 0 ==> (r matches WebTarget::Serve(p) && p@ == index_path(*web)),
        req.relative@.len() != 0 && exists ==> (r matches WebTarget::Serve(p) && p@ == req.file_path@),
        req.relative@.len() != 0 && !exists && !req.relative@.contains('.') && web.spa_support
            ==> (r matches WebTarget::Serve(p) && p@ == index_path(*web)),
        req.relative@.len() != 0 && !exists && !(!req.relative@.contains('.') && web.spa_support)
            ==> (r matches WebTarget::Missing(m) && m@ == "Not found file "@ + req.file_path@),
{
    let relative = req.relative.as_str();
    if relative.unicode_len() == 0 || (!exists && is_virtual_route(relative) && web.spa_support) {
        let mut p = web.dist_path.clone();
        p.append("/index.html");
        WebTarget::Serve(p)
    } else if exists {
        WebTarget::Serve(req.file_path.clone())
    } else {
        let mut m = String::from_str("Not found file ");
        m.append(req.file_path.as_str());
        WebTarget::Missing(m)
    }
}

/// The answer for a missing file.
pub fn missing_file_response(message: &str) -> (r: ProxyResult)
    ensures
        is_not_found(r, message@),
{
    not_found_response(message)
}

/// The media type guessed for a path.
pub uninterp spec fn mime_of(path: Seq<char>) -> Seq<char>;

/// Relies on mime_guess::from_path and MimeGuess::first_or_octet_stream: the
/// type registered for the path's extension, and application/octet-stream
/// for a path with no extension.
#[verifier::external_body]
fn guess_mime(path: &str) -> (r: String)
    ensures
        r@ == mime_of(path@),
        !path@.contains('.') ==> r@ == "application/octet-stream"@,
{
    mime_guess::from_path(path).first_or_octet_stream().to_string()
}

/// A file's contents sent with the media type its path suggests.
pub fn file_response(file_path: &str, contents: Vec<u8>) -> (r: ProxyResult)
    ensures
        r.status == OK,
        r.headers@.len() == 1,
        r.headers@[0].name@ == "content-type"@,
        r.headers@[0].value@ == encode_utf8(mime_of(file_path@)),
        r.body@ == contents@,
{
    let mime = guess_mime(file_path);
    let value = vstd::slice::slice_to_vec(mime.as_str().as_bytes());
    let mut headers: Vec<Header> = Vec::new();
    headers.push(Header { name: String::from_str("content-type"), value });
    ProxyResult { status: OK, headers, body: contents }
}

} // verus!
