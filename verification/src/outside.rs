//! Calls into `base64`, `chrono` and the parts of the standard library
//! that come without a contract. The contracts in this module are
//! believed, not proved; everything else in the crate is proved from them.

use crate::text::is_clock_time;
use base64::Engine;
use vstd::prelude::*;
use vstd::utf8::*;

verus! {

/// The standard base64 text, with padding, of a byte sequence, as
/// `base64`'s `STANDARD` engine encodes it.
pub uninterp spec fn base64_text(bytes: Seq<u8>) -> Seq<char>;

/// The bytes that `base64`'s `STANDARD` engine decodes from a text given
/// as bytes, or `None` where it rejects the text.
pub uninterp spec fn base64_decoded(text: Seq<u8>) -> Option<Seq<u8>>;

/// Why `base64` rejected a text.
#[verifier::external_type_specification]
#[verifier::external_body]
pub struct ExDecodeError(base64::DecodeError);

/// Why the standard library rejected bytes as UTF-8.
#[verifier::external_type_specification]
#[verifier::external_body]
pub struct ExFromUtf8Error(std::string::FromUtf8Error);

/// Calls `Engine::encode` on `base64::engine::general_purpose::STANDARD`.
/// The contract names the result and claims nothing else of it. The call
/// only panics where the encoded length exceeds `usize`, which no slice in
/// memory is long enough to cause.
#[verifier::external_body]
pub(crate) fn base64_encode(input: &[u8]) -> (r: String)
    ensures
        r@ == base64_text(input@),
{
    base64::engine::general_purpose::STANDARD.encode(input)
}

/// Calls `Engine::decode` on `base64::engine::general_purpose::STANDARD`.
/// The contract names what is decoded, and says that the call fails
/// exactly where there is nothing to name.
#[verifier::external_body]
pub(crate) fn base64_decode(input: &[u8]) -> (r: Result<Vec<u8>, base64::DecodeError>)
    ensures
        match r {
            Ok(bytes) => base64_decoded(input@) == Some(bytes@),
            Err(_) => base64_decoded(input@) is None,
        },
{
    base64::engine::general_purpose::STANDARD.decode(input)
}

/// Calls `String::from_utf8`: the bytes become the text's buffer if they
/// are valid UTF-8, and are rejected if they are not.
#[verifier::external_body]
pub(crate) fn string_from_utf8(bytes: Vec<u8>) -> (r: Result<String, std::string::FromUtf8Error>)
    ensures
        match r {
            Ok(text) => valid_utf8(bytes@) && encode_utf8(text@) == bytes@,
            Err(_) => !valid_utf8(bytes@),
        },
{
    String::from_utf8(bytes)
}

/// The text that `str::to_uppercase` returns for `s`. Unicode's case tables
/// decide it; contracts only refer to it by this name.
pub uninterp spec fn uppercase_of(s: Seq<char>) -> Seq<char>;

/// Calls `str::to_uppercase`. Nothing is claimed of the result beyond its
/// name: it is the upper-cased text that the standard library computes for
/// these characters.
#[verifier::external_body]
pub(crate) fn to_uppercase(s: &str) -> (r: String)
    ensures
        r@ == uppercase_of(s@),
{
    s.to_uppercase()
}

/// Whether Unicode counts `c` as white space, as `char::is_whitespace`
/// decides it.
pub uninterp spec fn is_whitespace(c: char) -> bool;

/// Calls `char::is_whitespace`. The contract names the result: the
/// answer is read from Unicode's tables.
#[verifier::external_body]
pub(crate) fn char_is_whitespace(c: char) -> (r: bool)
    ensures
        r == is_whitespace(c),
{
    c.is_whitespace()
}

/// Reads the system clock with `SystemTime::now`, converts it with
/// chrono's `From<SystemTime> for DateTime<Local>`, formats it as
/// `%H:%M:%S` and turns it into a `String`. The result depends on the
/// clock and the time zone of the machine; what holds of every result is
/// its form, since chrono writes each of the three fields with two digits.
/// The conversion also takes a clock that is set before 1970.
#[verifier::external_body]
pub(crate) fn local_time_label() -> (r: String)
    ensures
        is_clock_time(r@),
{
    chrono::DateTime::<chrono::Local>::from(std::time::SystemTime::now())
        .format("%H:%M:%S")
        .to_string()
}

} // verus!
