//! Text for the debug log of what passes through the bridges.
use vstd::prelude::*;
use vstd::utf8::{valid_utf8, decode_utf8};
use crate::text::{decimal, decimal_string, utf8_text};

verus! {

pub open spec fn received_line(bytes: Seq<u8>, source: Seq<char>) -> Seq<char> {
    if valid_utf8(bytes) {
        "Received message from "@ + source + " ("@ + decimal(bytes.len()) + " bytes): "@ + decode_utf8(bytes)
    } else {
        "Received message from "@ + source + "("@ + decimal(bytes.len()) + " bytes): <ERROR IN STRINGIFY>"@
    }
}

/// The debug line for a message of `bytes` received from `source`: its size
/// and, when it is UTF-8, its text.
pub fn debug_print_bytes(bytes: &Vec<u8>, source: &str) -> (r: String)
    ensures
        r@ == received_line(bytes@, source@),
{
    let size = decimal_string(bytes.len() as u64);
    let mut r = String::from_str("Received message from ");
    r.append(source);
    match utf8_text(bytes.as_slice()) {
        Some(text) => {
            r.append(" (");
            r.append(size.as_str());
            r.append(" bytes): ");
            r.append(text);
        },
        None => {
            r.append("(");
            r.append(size.as_str());
            r.append(" bytes): <ERROR IN STRINGIFY>");
        },
    }
    r
}

} // verus!
