//! The uniform HTTP-shaped result that every bridge and handler produces,
//! and the failures that end a request.
use vstd::prelude::*;

verus! {

pub const OK: u16 = 200;
pub const BAD_REQUEST: u16 = 400;
pub const NOT_FOUND: u16 = 404;
pub const INTERNAL_SERVER_ERROR: u16 = 500;
pub const BAD_GATEWAY: u16 = 502;
pub const GATEWAY_TIMEOUT: u16 = 504;

/// One response header; names are lower case, as HTTP libraries keep them.
pub struct Header {
    pub name: String,
    pub value: Vec<u8>,
}

/// Status, ordered headers and body of a response.
pub struct ProxyResult {
    pub status: u16,
    pub headers: Vec<Header>,
    pub body: Vec<u8>,
}

/// Why a request to a backend did not produce a response.
#[derive(Clone, Copy, Debug, PartialEq, Eq, Structural)]
pub enum Failure {
    /// The handler's backend is not configured or has no connection.
    Configuration,
    /// Writing to or reading from the connection failed.
    Transport,
    /// No reply came within the configured deadline.
    Timeout,
    /// The backend answered with a message of an unsupported kind.
    Protocol,
    /// The reverse proxy's upstream could not be reached or failed.
    Upstream,
    /// The inbound request body could not be read.
    RequestBody,
}

pub open spec fn failure_status(f: Failure) -> u16 {
    match f {
        Failure::Configuration => INTERNAL_SERVER_ERROR,
        Failure::Transport => BAD_GATEWAY,
        Failure::Timeout => GATEWAY_TIMEOUT,
        Failure::Protocol => BAD_GATEWAY,
        Failure::Upstream => BAD_REQUEST,
        Failure::RequestBody => BAD_REQUEST,
    }
}

impl Failure {
    /// The HTTP status that reports this failure to the caller.
    pub fn status(&self) -> (r: u16)
        ensures
            r == failure_status(*self),
    {
        match self {
            Failure::Configuration => INTERNAL_SERVER_ERROR,
            Failure::Transport => BAD_GATEWAY,
            Failure::Timeout => GATEWAY_TIMEOUT,
            Failure::Protocol => BAD_GATEWAY,
            Failure::Upstream => BAD_REQUEST,
            Failure::RequestBody => BAD_REQUEST,
        }
    }
}

/// A 200 response that carries `body` as `application/json`.
pub open spec fn is_json_response(r: ProxyResult, body: Seq<u8>) -> bool {
    &&& r.status == OK
    &&& r.headers@.len() == 1
    &&& r.headers@[0].name@ == "content-type"@
    &&& r.headers@[0].value@ == "application/json"@.map_values(|c: char| c as u8)
    &&& r.body@ == body
}

/// The bytes of an ASCII string.
pub fn ascii_bytes(s: &str) -> (r: Vec<u8>)
    ensures
        r@ == s@.map_values(|c: char| c as u8),
{
    let v = crate::text::chars_of(s);
    let mut r: Vec<u8> = Vec::new();
    let mut i: usize = 0;
    while i < v.len()
        invariant
            v@ == s@,
            i <= v.len(),
            r@ == s@.take(i as int).map_values(|c: char| c as u8),
        decreases v.len() - i,
    {
        r.push(v[i] as u8);
        proof {
            assert(s@.take(i + 1).map_values(|c: char| c as u8)
                =~= s@.take(i as int).map_values(|c: char| c as u8).push(v@[i as int] as u8));
        }
        i = i + 1;
    }
    assert(s@.take(v.len() as int) =~= s@);
    r
}

/// A 200 response that carries `body` as `application/json`.
pub fn json_response(body: Vec<u8>) -> (r: ProxyResult)
    ensures
        is_json_response(r, body@),
{
    let header = Header { name: String::from_str("content-type"), value: ascii_bytes("application/json") };
    let mut headers: Vec<Header> = Vec::new();
    headers.push(header);
    ProxyResult { status: OK, headers, body }
}

} // verus!
