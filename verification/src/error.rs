//! The structured error that every failing call reports: a numeric code, a
//! message and, where there is one, a payload of raw bytes as hexadecimal
//! text.

use vstd::prelude::*;
use crate::text::{bytes_to_prefixed_hex, hex_text};

verus! {

/// The code of an internal error.
pub const INTERNAL_ERROR_CODE: i32 = -32603;

/// A structured remote-procedure error.
#[derive(Clone, Debug, PartialEq, Eq)]
pub struct RpcError {
    pub code: i32,
    pub message: String,
    /// The payload as `0x` followed by two lower-case hexadecimal digits for
    /// each byte.
    pub data: Option<String>,
}

/// The text of a payload: `0x` and the hexadecimal text of its bytes.
pub open spec fn payload_text(bytes: Seq<u8>) -> Seq<char> {
    seq!['0', 'x'] + hex_text(bytes)
}

/// Builds the error with the given code and message. A payload is written
/// as `0x` followed by its bytes in hexadecimal.
pub fn err(code: i32, message: &str, data: Option<&[u8]>) -> (r: RpcError)
    ensures
        r.code == code,
        r.message@ == message@,
        match data {
            Some(bytes) => r.data is Some && r.data.unwrap()@ == payload_text(bytes@),
            None => r.data is None,
        },
{
    let data = match data {
        Some(bytes) => Some(bytes_to_prefixed_hex(bytes)),
        None => None,
    };
    RpcError { code, message: message.to_owned(), data }
}

/// Builds an internal error with the given message and no payload.
pub fn internal_err(message: &str) -> (r: RpcError)
    ensures
        r.code == INTERNAL_ERROR_CODE,
        r.message@ == message@,
        r.data is None,
{
    err(INTERNAL_ERROR_CODE, message, None)
}

} // verus!
