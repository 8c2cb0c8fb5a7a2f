use vstd::prelude::*;
use vstd::string::StringExecFns;
use crate::encoding::hex_encode;
use crate::encoding::hex_of;
use crate::errors::Error;
use crate::hashing::blake2b256_of;
use crate::hashing::blake2b_256;

verus! {

/// sp_core's sr25519 pair, opaque to the library: the public key bytes it
/// determines are carried beside it as plain data.
#[verifier::external_type_specification]
#[verifier::external_body]
pub struct ExSr25519Pair(sp_core::sr25519::Pair);

/// The public key bytes that sr25519 derivation produces for a secret URI,
/// or None where the URI does not parse. Derivation is deterministic in the
/// URI, so the bytes are a function of it.
pub uninterp spec fn sr25519_derived_public(suri: Seq<char>) -> Option<Seq<u8>>;

/// The ss58-check address of a 32-byte public key under a network version,
/// as sp_core::crypto::Ss58Codec renders it.
pub uninterp spec fn ss58_of(key: Seq<u8>, version: u16) -> Seq<char>;

/// Whether an sr25519 signature verifies over a message under a public key,
/// as sp_core::sr25519::Pair::verify computes it.
pub uninterp spec fn sr25519_verifies(sig: Seq<u8>, msg: Seq<u8>, public: Seq<u8>) -> bool;

/// A derived sr25519 signing keypair together with its public key bytes.
pub struct KeyPair {
    pair: sp_core::sr25519::Pair,
    public: Vec<u8>,
}

impl KeyPair {
    /// The public key bytes of the pair.
    pub closed spec fn spec_public(&self) -> Seq<u8> {
        self.public@
    }

    /// Well-formed: the public key has the 32 bytes of an sr25519 public
    /// key.
    pub open spec fn wf(&self) -> bool {
        self.spec_public().len() == 32
    }

    /// The public key bytes.
    pub fn public_bytes(&self) -> (r: &Vec<u8>)
        ensures
            r@ == self.spec_public(),
    {
        &self.public
    }

    /// Relies on sp_core::Pair::sign for sr25519: a 64-byte signature over
    /// the message that sp_core::sr25519::Pair::verify accepts under the
    /// pair's public key. The scheme is randomized, so the signature bytes
    /// themselves are not pinned.
    #[verifier::external_body]
    pub(crate) fn sign_raw(&self, msg: &[u8]) -> (r: Vec<u8>)
        ensures
            r@.len() == 64,
            sr25519_verifies(r@, msg@, self.spec_public()),
    {
        sp_core::Pair::sign(&self.pair, msg).0.to_vec()
    }
}

/// Relies on sp_core::Pair::from_string_with_seed and sr25519 Pair::public:
/// derivation from a secret URI is deterministic and yields a 32-byte public
/// key; a URI that does not parse is rejected with the parser's message.
#[verifier::external_body]
fn derive_sr25519(suri: &str) -> (r: Result<KeyPair, String>)
    ensures
        r matches Ok(kp) ==> sr25519_derived_public(suri@) == Some(kp.spec_public())
            && kp.spec_public().len() == 32,
        r is Err ==> sr25519_derived_public(suri@) is None,
{
    match <sp_core::sr25519::Pair as sp_core::Pair>::from_string_with_seed(suri, None) {
        Ok((pair, _seed)) => {
            let public = sp_core::Pair::public(&pair).0.to_vec();
            Ok(KeyPair { pair, public })
        },
        Err(e) => Err(format!("{:?}", e)),
    }
}

/// Relies on sp_core::crypto::Ss58Codec::to_ss58check_with_version on an
/// sr25519 public key: a base58-check address that depends on the key bytes
/// and the network version alone.
#[verifier::external_body]
fn ss58_encode(key: &[u8], version: u16) -> (r: String)
    requires
        key@.len() == 32,
    ensures
        r@ == ss58_of(key@, version),
{
    let mut raw = [0u8; 32];
    raw.copy_from_slice(key);
    let public = sp_core::sr25519::Public::from_raw(raw);
    sp_core::crypto::Ss58Codec::to_ss58check_with_version(
        &public,
        sp_core::crypto::Ss58AddressFormat::custom(version),
    )
}

/// The derivation suffix appended to the caller's seed: hard junctions for
/// the DID's authentication key number zero.
pub open spec fn did_key_suffix() -> Seq<char> {
    "//did//0"@
}

/// The ss58 network version of KILT chain addresses.
pub const KILT_SS58_VERSION: u16 = 38;

/// Derives the DID authentication keypair for a seed: the fixed suffix
/// `//did//0` is appended and the combined secret URI is handed to sr25519
/// derivation. Equal seeds always give equal public keys; a seed the
/// derivation cannot parse is a fatal error.
pub fn create_did_auth_key(seed: &str) -> (r: Result<KeyPair, Error>)
    ensures
        r matches Ok(kp) ==> sr25519_derived_public(seed@ + did_key_suffix())
            == Some(kp.spec_public()) && kp.wf(),
        r matches Err(e) ==> sr25519_derived_public(seed@ + did_key_suffix()) is None
            && e is Crypto,
{
    let mut suri = seed.to_owned();
    suri.append("//did//0");
    match derive_sr25519(suri.as_str()) {
        Ok(kp) => Ok(kp),
        Err(m) => Err(Error::Crypto(m)),
    }
}

/// Key derivation is deterministic: a secret URI determines its public key,
/// so two successful derivations from the same seed give bit-identical
/// public key bytes.
pub proof fn lemma_derivation_deterministic(suri: Seq<char>, p1: Seq<u8>, p2: Seq<u8>)
    requires
        sr25519_derived_public(suri) == Some(p1),
        sr25519_derived_public(suri) == Some(p2),
    ensures
        p1 == p2,
{
}

/// The two-byte type tag hashed in front of the public key: a public
/// verification key of the sr25519 scheme.
pub open spec fn key_type_tag() -> Seq<u8> {
    seq![0u8, 1u8]
}

/// The key identifier published for a public key: `did:kilt:` then the ss58
/// address of the key under the KILT network version, then `#0x` and the
/// lowercase hex of the BLAKE2b-256 digest over the key type tag followed by
/// the key bytes.
pub open spec fn spec_key_id(public: Seq<u8>) -> Seq<char> {
    "did:kilt:"@ + ss58_of(public, KILT_SS58_VERSION) + "#0x"@ + hex_of(
        blake2b256_of(key_type_tag() + public),
    )
}

/// Formats the key identifier (kid) under which the relay resolves the
/// registered verification key of the keypair.
pub fn create_key_id(kp: &KeyPair) -> (r: String)
    requires
        kp.wf(),
    ensures
        r@ == spec_key_id(kp.spec_public()),
{
    let mut tagged: Vec<u8> = Vec::new();
    tagged.push(0u8);
    tagged.push(1u8);
    let pk = kp.public_bytes();
    proof {
        assert(tagged@ =~= key_type_tag() + pk@.take(0));
    }
    let mut i: usize = 0;
    while i < pk.len()
        invariant
            i <= pk.len(),
            pk@ == kp.spec_public(),
            tagged@ == key_type_tag() + pk@.take(i as int),
        decreases pk.len() - i,
    {
        tagged.push(pk[i]);
        i = i + 1;
        proof {
            assert(tagged@ =~= key_type_tag() + pk@.take(i as int));
        }
    }
    proof {
        assert(pk@.take(pk@.len() as int) =~= pk@);
    }
    let hash = blake2b_256(tagged.as_slice());
    let mut kid = String::from_str("did:kilt:");
    let address = ss58_encode(pk.as_slice(), KILT_SS58_VERSION);
    kid.append(address.as_str());
    kid.append("#0x");
    let hash_hex = hex_encode(hash.as_slice());
    kid.append(hash_hex.as_str());
    kid
}

} // verus!
