use vstd::prelude::*;
use vstd::string::StringExecFns;
use vstd::utf8::encode_utf8;
use crate::encoding::b64url_decoded;
use crate::encoding::b64url_encode;
use crate::encoding::b64url_of;
use crate::errors::Error;
use crate::hashing::digest_for;
use crate::hashing::request_digest;
use crate::keys::KeyPair;
use crate::keys::create_key_id;
use crate::keys::spec_key_id;
use crate::keys::sr25519_verifies;

verus! {

/// The JSON string literal for a text: quoted and escaped, as
/// serde_json::to_string renders a str.
pub uninterp spec fn json_str_of(s: Seq<char>) -> Seq<char>;

/// Relies on serde_json::to_string on a str: the quoted, escaped JSON string
/// literal for the text, depending on the text alone. Serializing a str
/// only writes into a byte buffer and cannot fail, so the call always
/// succeeds.
#[verifier::external_body]
fn json_string_literal(s: &str) -> (r: Result<String, String>)
    ensures
        r is Ok,
        r matches Ok(j) ==> j@ == json_str_of(s@),
{
    serde_json::to_string(s).map_err(|e| format!("{}", e))
}

/// The JSON text of the token header naming a key identifier:
/// a single-field object, `{"kid":` then the kid as a JSON string, then `}`.
pub open spec fn header_json_of(kid: Seq<char>) -> Seq<char> {
    "{\"kid\":"@ + json_str_of(kid) + "}"@
}

/// A compact signed token: three base64url segments — a JSON header naming
/// the kid, the digest over the request's path and body, and a signature
/// over that digest — joined by `.` in its compact form.
pub struct SignedToken {
    /// base64url of the JSON header.
    pub header: String,
    /// base64url of the 32-byte request digest.
    pub payload: String,
    /// base64url of the 64-byte signature over the digest.
    pub signature: String,
}

impl SignedToken {
    /// The compact form: the three segments joined by `.`.
    pub open spec fn spec_compact(&self) -> Seq<char> {
        self.header@ + "."@ + self.payload@ + "."@ + self.signature@
    }

    /// Joins the three segments as `<header>.<payload>.<signature>`.
    pub fn compact(&self) -> (r: String)
        ensures
            r@ == self.spec_compact(),
    {
        let mut s = self.header.clone();
        s.append(".");
        s.append(self.payload.as_str());
        s.append(".");
        s.append(self.signature.as_str());
        s
    }
}

/// Signs a (path, body) pair under a key identifier, and always succeeds:
/// the payload segment is the digest over the exact path bytes followed by
/// the exact body bytes, the header names the kid, and the signature
/// segment carries an sr25519 signature over the digest that verifies under
/// the keypair's public key. The header and payload segments are
/// deterministic in the inputs; the signature scheme is randomized, so its
/// segment is pinned only up to verification. Decoding any of the three
/// segments gives the encoded bytes back.
pub fn compute_jws(path: &str, body: &str, kid: &str, kp: &KeyPair) -> (r: Result<
    SignedToken,
    Error,
>)
    requires
        kp.wf(),
    ensures
        r is Ok,
        r matches Ok(t) ==> {
            &&& t.header@ == b64url_of(encode_utf8(header_json_of(kid@)))
            &&& b64url_decoded(t.header@) == Some(encode_utf8(header_json_of(kid@)))
            &&& t.payload@ == b64url_of(request_digest(path@, body@))
            &&& b64url_decoded(t.payload@) == Some(request_digest(path@, body@))
            &&& request_digest(path@, body@).len() == 32
            &&& exists|sig: Seq<u8>|
                {
                    &&& sig.len() == 64
                    &&& t.signature@ == b64url_of(sig)
                    &&& b64url_decoded(t.signature@) == Some(sig)
                    &&& sr25519_verifies(sig, request_digest(path@, body@), kp.spec_public())
                }
        },
{
    let digest = digest_for(path, body);
    let sig = kp.sign_raw(digest.as_slice());
    let kid_literal = match json_string_literal(kid) {
        Ok(j) => j,
        Err(_) => vstd::pervasive::unreached(),
    };
    let mut header_json = String::from_str("{\"kid\":");
    header_json.append(kid_literal.as_str());
    header_json.append("}");
    let header = b64url_encode(header_json.as_str().as_bytes());
    let payload = b64url_encode(digest.as_slice());
    let signature = b64url_encode(sig.as_slice());
    proof {
        assert(header_json@ =~= header_json_of(kid@));
        assert(sig@.len() == 64 && signature@ == b64url_of(sig@) && b64url_decoded(signature@)
            == Some(sig@) && sr25519_verifies(sig@, request_digest(path@, body@), kp.spec_public()));
    }
    Ok(SignedToken { header, payload, signature })
}

/// The URL of a relay request: the base endpoint directly followed by the
/// path.
pub fn request_url(endpoint: &str, path: &str) -> (r: String)
    ensures
        r@ == endpoint@ + path@,
{
    let mut url = endpoint.to_owned();
    url.append(path);
    url
}

/// The authorization credential for one request, always produced: the kid
/// is re-derived from the keypair, the (path, body) pair is signed under
/// it, and the compact token is framed as a bearer credential. The whole
/// value is determined by the inputs, but for the token's signature
/// segment, which verifies over the request digest under the keypair's
/// public key.
pub fn authorization_for(path: &str, body: &str, kp: &KeyPair) -> (r: Result<String, Error>)
    requires
        kp.wf(),
    ensures
        r is Ok,
        r matches Ok(h) ==> exists|sig: Seq<u8>|
            {
                &&& sig.len() == 64
                &&& sr25519_verifies(sig, request_digest(path@, body@), kp.spec_public())
                &&& h@ == "Bearer "@ + b64url_of(
                    encode_utf8(header_json_of(spec_key_id(kp.spec_public()))),
                ) + "."@ + b64url_of(request_digest(path@, body@)) + "."@ + b64url_of(sig)
            },
{
    let kid = create_key_id(kp);
    let token = match compute_jws(path, body, kid.as_str(), kp) {
        Ok(t) => t,
        Err(_) => vstd::pervasive::unreached(),
    };
    let mut bearer = String::from_str("Bearer ");
    let compact = token.compact();
    bearer.append(compact.as_str());
    proof {
        let sig = choose|sig: Seq<u8>|
            {
                &&& sig.len() == 64
                &&& token.signature@ == b64url_of(sig)
                &&& b64url_decoded(token.signature@) == Some(sig)
                &&& sr25519_verifies(sig, request_digest(path@, body@), kp.spec_public())
            };
        assert(bearer@ =~= "Bearer "@ + b64url_of(
            encode_utf8(header_json_of(spec_key_id(kp.spec_public()))),
        ) + "."@ + b64url_of(request_digest(path@, body@)) + "."@ + b64url_of(sig));
    }
    Ok(bearer)
}

} // verus!
