//! Hexadecimal encoding and decoding.
//!
//! Decoding works on the UTF-8 bytes of the input string: a valid input is a
//! sequence of ASCII hexadecimal digits (both cases accepted), two digits per
//! output byte. Encoding produces lower-case digits.

use vstd::prelude::*;
use vstd::string::StringExecFns;
use vstd::string::StringSliceAdditionalSpecFns;

verus! {

/// True when `b` is the ASCII code of a hexadecimal digit.
pub open spec fn is_hex_digit(b: u8) -> bool {
    (0x30 <= b && b <= 0x39)  // '0' ..= '9'
    || (0x61 <= b && b <= 0x66)  // 'a' ..= 'f'
    || (0x41 <= b && b <= 0x46)  // 'A' ..= 'F'
}

/// Numeric value of the ASCII hexadecimal digit `b`.
pub open spec fn hex_digit_value(b: u8) -> u8 {
    if 0x30 <= b && b <= 0x39 {
        (b - 0x30) as u8
    } else if 0x61 <= b && b <= 0x66 {
        (b - 0x61 + 10) as u8
    } else {
        (b - 0x41 + 10) as u8
    }
}

/// True when every byte of `bs` is an ASCII hexadecimal digit.
pub open spec fn all_hex_digits(bs: Seq<u8>) -> bool {
    forall|i: int| 0 <= i < bs.len() ==> is_hex_digit(#[trigger] bs[i])
}

/// Byte `i` of the decoding of the digit sequence `bs`.
pub open spec fn decoded_byte(bs: Seq<u8>, i: int) -> u8 {
    (hex_digit_value(bs[2 * i]) * 16 + hex_digit_value(bs[2 * i + 1])) as u8
}

/// The bytes encoded by the digit sequence `bs`, two digits per byte.
pub open spec fn decoded_bytes(bs: Seq<u8>) -> Seq<u8> {
    Seq::new((bs.len() / 2) as nat, |i: int| decoded_byte(bs, i))
}

/// Lower-case hexadecimal digit character for the value `d` (below 16).
pub open spec fn hex_digit_char(d: u8) -> char {
    if d == 0 { '0' } else if d == 1 { '1' } else if d == 2 { '2' } else if d == 3 { '3' }
    else if d == 4 { '4' } else if d == 5 { '5' } else if d == 6 { '6' } else if d == 7 { '7' }
    else if d == 8 { '8' } else if d == 9 { '9' } else if d == 10 { 'a' } else if d == 11 { 'b' }
    else if d == 12 { 'c' } else if d == 13 { 'd' } else if d == 14 { 'e' } else { 'f' }
}

/// The hexadecimal rendering of `bs`: two lower-case digits per byte.
pub open spec fn hex_chars(bs: Seq<u8>) -> Seq<char> {
    Seq::new(2 * bs.len(), |i: int|
        if i % 2 == 0 {
            hex_digit_char(bs[i / 2] / 16)
        } else {
            hex_digit_char(bs[i / 2] % 16)
        })
}

/// The error text returned when a decoded string has odd length.
pub open spec fn odd_length_error() -> Seq<char> {
    "DECODE HEXADECIMAL ERROR: Input hex string should have even number length!"@
}

/// The error text returned when a decoded string holds a non-digit byte.
pub open spec fn invalid_digit_error() -> Seq<char> {
    "invalid digit found in string"@
}

/// The error text returned when a color string has the wrong length.
pub open spec fn bad_rgb_format_error() -> Seq<char> {
    "DECODE HEXADECIMAL ERROR: Input hex string formatted incorrectly!"@
}

/// Parses one ASCII hexadecimal digit.
fn hex_digit_parse(b: u8) -> (r: Option<u8>)
    ensures
        match r {
            Some(v) => is_hex_digit(b) && v == hex_digit_value(b),
            None => !is_hex_digit(b),
        },
{
    if 0x30 <= b && b <= 0x39 {
        Some(b - 0x30)
    } else if 0x61 <= b && b <= 0x66 {
        Some(b - 0x61 + 10)
    } else if 0x41 <= b && b <= 0x46 {
        Some(b - 0x41 + 10)
    } else {
        None
    }
}

/// Appends the lower-case hexadecimal digit for `d` to `s`.
fn push_hex_digit(s: &mut String, d: u8)
    requires
        d < 16,
    ensures
        final(s)@ == old(s)@ + seq![hex_digit_char(d)],
{
    proof {
        reveal_strlit("0"); reveal_strlit("1"); reveal_strlit("2"); reveal_strlit("3");
        reveal_strlit("4"); reveal_strlit("5"); reveal_strlit("6"); reveal_strlit("7");
        reveal_strlit("8"); reveal_strlit("9"); reveal_strlit("a"); reveal_strlit("b");
        reveal_strlit("c"); reveal_strlit("d"); reveal_strlit("e"); reveal_strlit("f");
    }
    match d {
        0 => s.append("0"),
        1 => s.append("1"),
        2 => s.append("2"),
        3 => s.append("3"),
        4 => s.append("4"),
        5 => s.append("5"),
        6 => s.append("6"),
        7 => s.append("7"),
        8 => s.append("8"),
        9 => s.append("9"),
        10 => s.append("a"),
        11 => s.append("b"),
        12 => s.append("c"),
        13 => s.append("d"),
        14 => s.append("e"),
        _ => s.append("f"),
    }
    proof {
        assert(s@ =~= old(s)@ + seq![hex_digit_char(d)]);
    }
}

/// Decodes the input string into a byte `Vec`.
///
/// Returns the decoded bytes when the string has even length and holds only
/// hexadecimal digits; otherwise returns the matching error text.
pub fn decode_hex_str(hex: &str) -> (r: Result<Vec<u8>, String>)
    ensures
        match r {
            Ok(v) => hex.spec_bytes().len() % 2 == 0 && all_hex_digits(hex.spec_bytes())
                && v@ == decoded_bytes(hex.spec_bytes()),
            Err(e) => (hex.spec_bytes().len() % 2 != 0 || !all_hex_digits(hex.spec_bytes()))
                && e@ == if hex.spec_bytes().len() % 2 != 0 {
                    odd_length_error()
                } else {
                    invalid_digit_error()
                },
        },
{
    let bytes: &[u8] = hex.as_bytes();
    decode_hex_bytes(bytes)
}

/// Decodes a byte slice of hexadecimal digits into the bytes it encodes.
fn decode_hex_bytes(bytes: &[u8]) -> (r: Result<Vec<u8>, String>)
    ensures
        match r {
            Ok(v) => bytes@.len() % 2 == 0 && all_hex_digits(bytes@) && v@ == decoded_bytes(
                bytes@,
            ),
            Err(e) => (bytes@.len() % 2 != 0 || !all_hex_digits(bytes@)) && e@ == if bytes@.len()
                % 2 != 0 {
                odd_length_error()
            } else {
                invalid_digit_error()
            },
        },
{
    if bytes.len() % 2 != 0 {
        return Err(String::from_str(
            "DECODE HEXADECIMAL ERROR: Input hex string should have even number length!",
        ));
    }
    let mut result: Vec<u8> = Vec::new();
    let mut i: usize = 0;
    while i < bytes.len()
        invariant
            bytes@.len() % 2 == 0,
            i % 2 == 0,
            i <= bytes@.len(),
            result@.len() == i / 2,
            forall|k: int| 0 <= k < i ==> is_hex_digit(#[trigger] bytes@[k]),
            forall|k: int| 0 <= k < i / 2 ==> result@[k] == decoded_byte(bytes@, k),
        decreases bytes@.len() - i,
    {
        let hi = match hex_digit_parse(bytes[i]) {
            Some(v) => v,
            None => {
                proof {
                    assert(!is_hex_digit(bytes@[i as int]));
                }
                return Err(String::from_str("invalid digit found in string"));
            },
        };
        let lo = match hex_digit_parse(bytes[i + 1]) {
            Some(v) => v,
            None => {
                proof {
                    assert(!is_hex_digit(bytes@[i + 1]));
                }
                return Err(String::from_str("invalid digit found in string"));
            },
        };
        result.push(hi * 16 + lo);
        i += 2;
    }
    proof {
        assert(result@ =~= decoded_bytes(bytes@));
    }
    Ok(result)
}

/// Encodes the input bytes into a hexadecimal `String` of lower-case digits.
pub fn encode_hex(bytes: &[u8]) -> (r: String)
    ensures
        r@ == hex_chars(bytes@),
{
    let mut result = String::new();
    let mut i: usize = 0;
    while i < bytes.len()
        invariant
            i <= bytes@.len(),
            result@ == hex_chars(bytes@).take(2 * i as int),
        decreases bytes@.len() - i,
    {
        let b = bytes[i];
        push_hex_digit(&mut result, b / 16);
        push_hex_digit(&mut result, b % 16);
        proof {
            assert(result@ =~= hex_chars(bytes@).take(2 * (i + 1) as int));
        }
        i += 1;
    }
    proof {
        assert(hex_chars(bytes@).take(2 * bytes@.len() as int) =~= hex_chars(bytes@));
    }
    result
}

/// Decodes a 6-digit color string, with any leading `#` marks removed first,
/// into its three bytes.
pub fn decode_hex_rgb(hex: &str) -> (r: Result<[u8; 3], String>)
    ensures
        match r {
            Ok(v) => {
                let bs = strip_hash_marks(hex.spec_bytes());
                bs.len() == 6 && all_hex_digits(bs) && v@ =~= decoded_bytes(bs)
            },
            Err(e) => {
                let bs = strip_hash_marks(hex.spec_bytes());
                (bs.len() != 6 || !all_hex_digits(bs)) && e@ == if bs.len() != 6 {
                    bad_rgb_format_error()
                } else {
                    invalid_digit_error()
                }
            },
        },
{
    let bytes: &[u8] = hex.as_bytes();
    let mut start: usize = 0;
    while start < bytes.len() && bytes[start] == 0x23
        invariant
            bytes@ == hex.spec_bytes(),
            start <= bytes@.len(),
            forall|k: int| 0 <= k < start ==> bytes@[k] == 0x23u8,
        decreases bytes@.len() - start,
    {
        start += 1;
    }
    proof {
        lemma_strip_hash_marks(bytes@, start as int);
    }
    if bytes.len() - start != 6 {
        return Err(String::from_str(
            "DECODE HEXADECIMAL ERROR: Input hex string formatted incorrectly!",
        ));
    }
    let mut result: [u8; 3] = [0, 0, 0];
    let mut i: usize = 0;
    while i < 3
        invariant
            i <= 3,
            bytes@ == hex.spec_bytes(),
            bytes@.len() <= usize::MAX,
            start + 6 == bytes@.len(),
            strip_hash_marks(bytes@) == bytes@.skip(start as int),
            forall|k: int| start <= k < start + 2 * i ==> is_hex_digit(#[trigger] bytes@[k]),
            forall|k: int|
                0 <= k < i ==> result@[k] == decoded_byte(bytes@.skip(start as int), k),
        decreases 3 - i,
    {
        let hi = match hex_digit_parse(bytes[start + 2 * i]) {
            Some(v) => v,
            None => {
                proof {
                    assert(!is_hex_digit(strip_hash_marks(bytes@)[2 * (i as int)]));
                }
                return Err(String::from_str("invalid digit found in string"));
            },
        };
        let lo = match hex_digit_parse(bytes[start + 2 * i + 1]) {
            Some(v) => v,
            None => {
                proof {
                    assert(!is_hex_digit(strip_hash_marks(bytes@)[2 * (i as int) + 1]));
                }
                return Err(String::from_str("invalid digit found in string"));
            },
        };
        result[i] = hi * 16 + lo;
        i += 1;
    }
    proof {
        assert(result@ =~= decoded_bytes(strip_hash_marks(bytes@)));
    }
    Ok(result)
}

/// `bs` with every leading `#` byte removed.
pub open spec fn strip_hash_marks(bs: Seq<u8>) -> Seq<u8>
    decreases bs.len(),
{
    if bs.len() > 0 && bs[0] == 0x23 {
        strip_hash_marks(bs.skip(1))
    } else {
        bs
    }
}

/// When the first `start` bytes of `bs` are `#` and the byte at `start` (if
/// any) is not, stripping the leading `#` marks leaves the tail from `start`.
proof fn lemma_strip_hash_marks(bs: Seq<u8>, start: int)
    requires
        0 <= start <= bs.len(),
        forall|k: int| 0 <= k < start ==> bs[k] == 0x23u8,
        start < bs.len() ==> bs[start] != 0x23u8,
    ensures
        strip_hash_marks(bs) == bs.skip(start),
    decreases start,
{
    if start == 0 {
        assert(bs.skip(0) =~= bs);
    } else {
        lemma_strip_hash_marks(bs.skip(1), start - 1);
        assert(bs.skip(1).skip(start - 1) =~= bs.skip(start));
    }
}

} // verus!
