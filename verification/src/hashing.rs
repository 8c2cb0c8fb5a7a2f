use vstd::prelude::*;
use vstd::string::StrSliceExecFns;
use vstd::utf8::encode_utf8;
use blake2::Digest;

verus! {

/// The 32-byte BLAKE2b-256 digest of a byte string, as blake2's Blake2b with
/// a 32-byte output computes it.
pub uninterp spec fn blake2b256_of(data: Seq<u8>) -> Seq<u8>;

/// Relies on blake2::Blake2b with a 32-byte output, driven through the
/// Digest trait: a fixed 32-byte digest that depends on the input bytes
/// alone.
#[verifier::external_body]
pub(crate) fn blake2b_256(data: &[u8]) -> (r: Vec<u8>)
    ensures
        r@ == blake2b256_of(data@),
        r@.len() == 32,
{
    let mut hasher = blake2::Blake2b256::new();
    hasher.update(data);
    hasher.finalize().to_vec()
}

/// The digest a signed token authorizes: BLAKE2b-256 over the exact bytes of
/// the path followed by the exact bytes of the body, with no separator and
/// no length prefix. The relay recomputes it from the literal request, so
/// the bytes must be exactly those transmitted.
pub open spec fn request_digest(path: Seq<char>, body: Seq<char>) -> Seq<u8> {
    blake2b256_of(encode_utf8(path) + encode_utf8(body))
}

/// Computes the digest for a (path, body) pair: BLAKE2b-256 of the path's
/// bytes directly followed by the body's bytes.
pub fn digest_for(path: &str, body: &str) -> (r: Vec<u8>)
    ensures
        r@ == request_digest(path@, body@),
        r@.len() == 32,
{
    let mut data: Vec<u8> = path.as_bytes_vec();
    let mut tail: Vec<u8> = body.as_bytes_vec();
    data.append(&mut tail);
    blake2b_256(data.as_slice())
}

} // verus!
