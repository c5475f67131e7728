//! Percent-encoding of query parameter values, as the `urlencoding` crate
//! performs it: every byte of the UTF-8 form is kept when it is an ASCII
//! alphanumeric or one of `-`, `.`, `_`, `~`, and written as `%` plus two
//! upper-case hex digits otherwise.

use vstd::prelude::*;

verus! {

/// Whether a byte passes through percent-encoding unchanged.
pub open spec fn url_safe_byte(b: u8) -> bool {
    (48 <= b && b <= 57)  // '0'..'9'
     || (65 <= b && b <= 90)  // 'A'..'Z'
     || (97 <= b && b <= 122)  // 'a'..'z'
     || b == 45 || b == 46 || b == 95 || b == 126  // '-' '.' '_' '~'

}

/// The upper-case hexadecimal digit characters, indexed by value.
pub open spec fn hex_upper_char(d: nat) -> char
    recommends
        d < 16,
{
    seq!['0', '1', '2', '3', '4', '5', '6', '7', '8', '9', 'A', 'B', 'C', 'D', 'E', 'F'][d as int]
}

/// How one byte is rendered: itself when safe, `%XX` otherwise.
pub open spec fn url_encode_byte(b: u8) -> Seq<char> {
    if url_safe_byte(b) {
        seq![b as char]
    } else {
        seq!['%', hex_upper_char((b >> 4) as nat), hex_upper_char((b & 0xf) as nat)]
    }
}

/// The percent-encoding of a byte string.
pub open spec fn url_encode_bytes(bytes: Seq<u8>) -> Seq<char>
    decreases bytes.len(),
{
    if bytes.len() == 0 {
        Seq::empty()
    } else {
        url_encode_byte(bytes[0]) + url_encode_bytes(bytes.drop_first())
    }
}

/// The percent-encoding of a string, over its UTF-8 bytes.
pub open spec fn url_encode_chars(s: Seq<char>) -> Seq<char> {
    url_encode_bytes(vstd::utf8::encode_utf8(s))
}

/// Relies on `urlencoding::encode`: percent-encodes every byte of the
/// string's UTF-8 form except ASCII alphanumerics and `-`, `.`, `_`, `~`,
/// writing `%` followed by two upper-case hex digits for the rest.
#[verifier::external_body]
pub fn url_encode(s: &str) -> (r: String)
    ensures
        r@ == url_encode_chars(s@),
{
    urlencoding::encode(s).into_owned()
}

} // verus!
