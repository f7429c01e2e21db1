//! The request that turns a place name into coordinates.

use vstd::prelude::*;
use vstd::string::StringExecFns;
use vstd::utf8::encode_utf8;

verus! {

/// The bytes that stand for themselves in a query: ASCII letters and digits
/// and the four marks `-`, `.`, `_` and `~`.
pub open spec fn is_unreserved(b: u8) -> bool {
    ||| 0x30 <= b <= 0x39
    ||| 0x41 <= b <= 0x5A
    ||| 0x61 <= b <= 0x7A
    ||| b == 0x2D
    ||| b == 0x2E
    ||| b == 0x5F
    ||| b == 0x7E
}

/// The upper-case hexadecimal digit for a value below sixteen.
pub open spec fn hex_digit(value: u8) -> char {
    if value < 10 {
        (0x30 + value) as char
    } else {
        (0x41 + value - 10) as char
    }
}

/// One byte as it appears in a query: itself if unreserved, otherwise a
/// percent sign and its two hexadecimal digits.
pub open spec fn percent_encoded_byte(b: u8) -> Seq<char> {
    if is_unreserved(b) {
        seq![b as char]
    } else {
        seq!['%', hex_digit(b / 16), hex_digit(b % 16)]
    }
}

/// A run of bytes as it appears in a query.
pub open spec fn percent_encoded(bytes: Seq<u8>) -> Seq<char>
    decreases bytes.len(),
{
    if bytes.len() == 0 {
        Seq::empty()
    } else {
        percent_encoded_byte(bytes[0]) + percent_encoded(bytes.drop_first())
    }
}

/// `urlencoding::encode` percent-encodes every byte of the UTF-8 form of the
/// text except ASCII letters, digits and `-`, `.`, `_`, `~`, writing the
/// hexadecimal digits in upper case.
#[verifier::external_body]
fn percent_encode(text: &str) -> (encoded: String)
    ensures
        encoded@ == percent_encoded(encode_utf8(text@)),
{
    urlencoding::encode(text).into_owned()
}

/// The address at which the place-name service is asked about `query`, as a
/// sequence of characters.
pub open spec fn geocode_url_of(query: Seq<char>) -> Seq<char> {
    "https://nominatim.openstreetmap.org/search?q="@ + percent_encoded(encode_utf8(query))
        + "&format=json&limit=5"@
}

/// The address at which the place-name service is asked for up to five
/// candidates for `query`.
pub fn geocode_url(query: &str) -> (url: String)
    ensures
        url@ == geocode_url_of(query@),
{
    let mut url = String::from_str("https://nominatim.openstreetmap.org/search?q=");
    let encoded = percent_encode(query);
    url.append(encoded.as_str());
    url.append("&format=json&limit=5");
    url
}

} // verus!
