use vstd::prelude::*;
use vstd::string::StringExecFns;

verus! {

/// The lowercase hexadecimal digit for a value below sixteen.
pub open spec fn hex_digit(v: u8) -> char
    recommends
        v < 16,
{
    if v < 10 {
        (('0' as u8) + v) as char
    } else {
        (('a' as u8) + (v - 10)) as char
    }
}

/// The lowercase hexadecimal rendering of a byte string: two digits per
/// byte, high nibble first.
pub open spec fn hex_of(b: Seq<u8>) -> Seq<char>
    decreases b.len(),
{
    if b.len() == 0 {
        Seq::empty()
    } else {
        seq![hex_digit(b[0] / 16), hex_digit(b[0] % 16)] + hex_of(b.drop_first())
    }
}

/// Relies on hex::encode: the lowercase hexadecimal rendering of the input,
/// two digits per byte, high nibble first.
#[verifier::external_body]
pub(crate) fn hex_encode(b: &[u8]) -> (r: String)
    ensures
        r@ == hex_of(b@),
{
    hex::encode(b)
}

/// The base64url rendering, without padding, of a byte string, as
/// base64_url::encode computes it.
pub uninterp spec fn b64url_of(b: Seq<u8>) -> Seq<char>;

/// The byte string whose base64url rendering is the given text, if there is
/// one: the inverse of [`b64url_of`], as base64_url::decode computes it.
pub uninterp spec fn b64url_decoded(s: Seq<char>) -> Option<Seq<u8>>;

/// Relies on base64_url::encode: base64url without padding, and
/// base64_url::decode inverts it, so decoding the result gives the input
/// back.
#[verifier::external_body]
pub(crate) fn b64url_encode(b: &[u8]) -> (r: String)
    ensures
        r@ == b64url_of(b@),
        b64url_decoded(r@) == Some(b@),
{
    base64_url::encode(b)
}

/// The `0x`-prefixed lowercase hex rendering of call bytes: the body that is
/// submitted to the relay.
pub open spec fn spec_call_data_hex(b: Seq<u8>) -> Seq<char> {
    "0x"@ + hex_of(b)
}

/// Renders chain call bytes as the `0x`-prefixed lowercase hex string that
/// the relay accepts as a submission body.
pub fn call_data_hex(call: &[u8]) -> (r: String)
    ensures
        r@ == spec_call_data_hex(call@),
{
    let mut s = String::from_str("0x");
    let digits = hex_encode(call);
    s.append(digits.as_str());
    s
}

} // verus!
