//! Hexadecimal codec offered at the crate root: thin fronts over
//! [`crate::functions::hexadecimal`].

use vstd::prelude::*;
use crate::functions::hexadecimal::{all_hex_digits, decoded_bytes, hex_chars};
use crate::functions::hexadecimal::{invalid_digit_error, odd_length_error};
use vstd::string::StringSliceAdditionalSpecFns;

verus! {

/// Decodes the input string into a byte `Vec`.
///
/// Returns the decoded bytes when the string has even length and holds only
/// hexadecimal digits; otherwise returns the matching error text.
pub fn decode_hex_str(hex: &str) -> (r: Result<Vec<u8>, String>)
    ensures
        match r {
            Ok(v) => hex.spec_bytes().len() % 2 == 0 && all_hex_digits(hex.spec_bytes())
                && v@ == decoded_bytes(hex.spec_bytes()),
            Err(e) => (hex.spec_bytes().len() % 2 != 0 || !all_hex_digits(hex.spec_bytes()))
                && e@ == if hex.spec_bytes().len() % 2 != 0 {
                    odd_length_error()
                } else {
                    invalid_digit_error()
                },
        },
{
    crate::functions::hexadecimal::decode_hex_str(hex)
}

/// Encodes the input bytes into a hexadecimal `String` of lower-case digits.
pub fn encode_hex(bytes: &[u8]) -> (r: String)
    ensures
        r@ == hex_chars(bytes@),
{
    crate::functions::hexadecimal::encode_hex(bytes)
}

} // verus!
