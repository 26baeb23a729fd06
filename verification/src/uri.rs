use vstd::prelude::*;
use vstd::slice::slice_subrange;
use vstd::utf8::{decode_utf8, encode_utf8, encode_utf8_decode_utf8, encode_utf8_valid_utf8, valid_utf8};

verus! {

/// The error of std's UTF-8 check, `core::str::Utf8Error`. It is handed
/// through; nothing is known of what it holds.
#[verifier::external_type_specification]
#[verifier::external_body]
pub struct ExUtf8Error(core::str::Utf8Error);

/// Number of bytes of the scheme prefix `file://`.
pub const SCHEME_PREFIX_LEN: usize = 7;

/// The value of an ASCII hexadecimal digit, in either case.
pub open spec fn hex_digit(b: u8) -> Option<int> {
    if 0x30 <= b <= 0x39 {
        Some(b - 0x30)
    } else if 0x41 <= b <= 0x46 {
        Some(b - 0x41 + 10)
    } else if 0x61 <= b <= 0x66 {
        Some(b - 0x61 + 10)
    } else {
        None
    }
}

/// Percent-decoding: a `%` followed by two hexadecimal digits stands for the
/// byte they spell; every other byte, a stray `%` included, stands for itself.
pub open spec fn percent_decoded(bytes: Seq<u8>) -> Seq<u8>
    decreases bytes.len(),
{
    if bytes.len() == 0 {
        Seq::empty()
    } else if bytes[0] == 0x25 && bytes.len() >= 3 && hex_digit(bytes[1]) is Some && hex_digit(
        bytes[2],
    ) is Some {
        seq![(hex_digit(bytes[1]).unwrap() * 16 + hex_digit(bytes[2]).unwrap()) as u8]
            + percent_decoded(bytes.skip(3))
    } else {
        seq![bytes[0]] + percent_decoded(bytes.skip(1))
    }
}

/// The file that a `file://` URI names: what follows the scheme prefix,
/// percent-decoded and read as UTF-8. A URI shorter than the prefix, or one
/// that does not decode to UTF-8, names no file.
pub open spec fn uri_file_path(uri: Seq<char>) -> Option<Seq<char>> {
    let bytes = encode_utf8(uri);
    if bytes.len() < SCHEME_PREFIX_LEN {
        None
    } else {
        let decoded = percent_decoded(bytes.skip(SCHEME_PREFIX_LEN as int));
        if valid_utf8(decoded) {
            Some(decode_utf8(decoded))
        } else {
            None
        }
    }
}

/// Calls `percent_encoding::percent_decode(input).decode_utf8()`.
///
/// Trusted: the text returned is the UTF-8 reading of the percent-decoded
/// input, and the call fails exactly when those bytes are not UTF-8.
#[verifier::external_body]
fn percent_decode_utf8(input: &[u8]) -> (text: Result<String, core::str::Utf8Error>)
    ensures
        match text {
            Ok(s) => encode_utf8(s@) == percent_decoded(input@),
            Err(_) => !valid_utf8(percent_decoded(input@)),
        },
{
    match percent_encoding::percent_decode(input).decode_utf8() {
        Ok(s) => Ok(s.into_owned()),
        Err(e) => Err(e),
    }
}

/// The path of the file that `uri` names, if it names one.
pub fn file_path_of_uri(uri: &str) -> (path: Option<String>)
    ensures
        match path {
            Some(p) => uri_file_path(uri@) == Some(p@),
            None => uri_file_path(uri@) is None,
        },
{
    let bytes = uri.as_bytes();
    if bytes.len() < SCHEME_PREFIX_LEN {
        return None;
    }
    let rest = slice_subrange(bytes, SCHEME_PREFIX_LEN, bytes.len());
    assert(rest@ =~= encode_utf8(uri@).skip(SCHEME_PREFIX_LEN as int));
    match percent_decode_utf8(rest) {
        Ok(p) => {
            proof {
                encode_utf8_valid_utf8(p@);
                encode_utf8_decode_utf8(p@);
            }
            Some(p)
        },
        Err(_) => None,
    }
}

} // verus!
