//! The ingestion boundary: the body of a request becomes one message, or is
//! rejected.

use std::string::FromUtf8Error;
use vstd::prelude::*;
use vstd::utf8::{
    decode_utf8, encode_utf8, encode_utf8_decode_utf8, encode_utf8_valid_utf8, valid_utf8,
};

verus! {

/// `std::string::FromUtf8Error`, the error of `String::from_utf8`. Nothing
/// is claimed of what it holds.
#[verifier::external_type_specification]
#[verifier::external_body]
pub struct ExFromUtf8Error(FromUtf8Error);

/// The body of a request is not valid text.
#[derive(Clone, Copy, Debug, PartialEq, Eq)]
pub struct PayloadDecodeFailure;

/// `String::from_utf8`. Believed of it: it returns `Ok` with a string whose
/// UTF-8 encoding is exactly `bytes`, or `Err` where `bytes` are not valid
/// UTF-8.
#[verifier::external_body]
fn string_from_utf8(bytes: Vec<u8>) -> (text: Result<String, FromUtf8Error>)
    ensures
        match text {
            Ok(string) => encode_utf8(string@) == bytes@,
            Err(_) => !valid_utf8(bytes@),
        },
{
    String::from_utf8(bytes)
}

/// Decodes the body of a request as text. A body that is valid UTF-8 gives
/// the message that it encodes; any other body is rejected.
pub fn decode_payload(body: Vec<u8>) -> (decoded: Result<String, PayloadDecodeFailure>)
    ensures
        match decoded {
            Ok(message) => valid_utf8(body@) && message@ == decode_utf8(body@),
            Err(_) => !valid_utf8(body@),
        },
{
    match string_from_utf8(body) {
        Ok(message) => {
            proof {
                encode_utf8_valid_utf8(message@);
                encode_utf8_decode_utf8(message@);
            }
            Ok(message)
        },
        Err(_) => Err(PayloadDecodeFailure),
    }
}

} // verus!
