//! The process-lifetime signing key.
use vstd::prelude::*;

use crypto_hashes::sha2::Sha256;
use hmac::{Hmac, Mac};

verus! {

/// The HMAC-SHA-256 tag of `msg` under `key`.
pub uninterp spec fn hmac_sha256_of(key: Seq<u8>, msg: Seq<u8>) -> Seq<u8>;

/// Relies on `hmac::Hmac<Sha256>`: `new_from_slice` accepts a key of any
/// length (longer keys are hashed first), and `finalize` gives the 32-byte tag.
#[verifier::external_body]
fn hmac_sha256(key: &[u8], msg: &[u8]) -> (r: Vec<u8>)
    ensures
        r@ == hmac_sha256_of(key@, msg@),
        r@.len() == 32,
{
    let mut mac = <Hmac<Sha256> as Mac>::new_from_slice(key).unwrap();
    mac.update(msg);
    mac.finalize().into_bytes().to_vec()
}

/// Relies on `rand::random` for a `[u8; 32]`: 32 bytes from the thread-local
/// generator, of which nothing else is known.
#[verifier::external_body]
fn random_seed() -> (r: Vec<u8>)
    ensures
        r@.len() == 32,
{
    rand::random::<[u8; 32]>().to_vec()
}

/// The symmetric key that signs session and CSRF tokens. It is made once at
/// startup, shared read-only, and never written anywhere.
pub struct ApiKey {
    bytes: Vec<u8>,
}

impl View for ApiKey {
    type V = Seq<u8>;

    closed spec fn view(&self) -> Seq<u8> {
        self.bytes@
    }
}

impl ApiKey {
    /// A key holds the 32 bytes of an HMAC-SHA-256 tag.
    pub open spec fn wf(&self) -> bool {
        self@.len() == 32
    }

    /// The key derived from `seed`: the HMAC-SHA-256 tag of the empty message
    /// under the seed.
    pub fn from_seed(seed: &[u8]) -> (r: ApiKey)
        ensures
            r@ == hmac_sha256_of(seed@, Seq::<u8>::empty()),
            r.wf(),
    {
        let empty: Vec<u8> = Vec::new();
        ApiKey { bytes: hmac_sha256(seed, empty.as_slice()) }
    }

    /// A fresh key from 32 random bytes.
    pub fn generate() -> (r: ApiKey)
        ensures
            r.wf(),
    {
        let seed = random_seed();
        ApiKey::from_seed(seed.as_slice())
    }

    pub fn as_bytes(&self) -> (r: &[u8])
        ensures
            r@ == self@,
    {
        self.bytes.as_slice()
    }
}

} // verus!
