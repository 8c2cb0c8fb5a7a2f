//! Authenticated transaction submission to a KILT relay service.
//!
//! The library covers the logic of the submission protocol: deterministic
//! sr25519 key derivation from a seed, a compact signed token binding a
//! request's path and body to the signing key, and the state machine that
//! polls a submission's status until it is finalized. HTTP transport and the
//! chain client live outside the library and hand it plain strings and bytes.

use vstd::prelude::*;

pub mod encoding;
pub mod errors;
pub mod hashing;
pub mod keys;
pub mod poller;
pub mod token;

pub use encoding::call_data_hex;
pub use errors::Error;
pub use hashing::digest_for;
pub use keys::KeyPair;
pub use keys::create_did_auth_key;
pub use keys::create_key_id;
pub use poller::POLL_INTERVAL_MS;
pub use poller::PollState;
pub use poller::handle_post_response;
pub use poller::poll_step;
pub use poller::status_path;
pub use poller::submission_path;
pub use token::SignedToken;
pub use token::authorization_for;
pub use token::compute_jws;
pub use token::request_url;

verus! {

/// Marker for the KILT chain configuration. The chain client in the
/// surrounding program attaches its connection parameters to a copy of this
/// type; the library itself never talks to the chain.
#[derive(Clone, Debug, Default, Eq, PartialEq)]
pub struct KiltConfig;

} // verus!
