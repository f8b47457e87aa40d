//! The keyed-hash and digest primitives, provided by `ring`.
use vstd::prelude::*;

use crate::otp::Algorithm;

verus! {

/// Length in bytes of an HMAC tag over the hash that `alg` selects.
pub open spec fn tag_len(alg: Algorithm) -> nat {
    match alg {
        Algorithm::SHA1 => 20,
        Algorithm::SHA256 => 32,
        Algorithm::SHA512 => 64,
    }
}

/// The HMAC tag of `msg` under `key`, computed with the hash that `alg` selects.
pub uninterp spec fn hmac_of(alg: Algorithm, key: Seq<u8>, msg: Seq<u8>) -> Seq<u8>;

/// Relies on ring::hmac::Key::new and ring::hmac::sign: the tag is a function
/// of the algorithm, the key and the message, and holds as many bytes as the
/// hash's output (`digest::Algorithm::output_len`).
#[verifier::external_body]
pub(crate) fn hmac_tag(alg: Algorithm, key: &[u8], msg: &[u8]) -> (r: Vec<u8>)
    ensures
        r@ == hmac_of(alg, key@, msg@),
        r@.len() == tag_len(alg),
{
    let algorithm = match alg {
        Algorithm::SHA1 => ring::hmac::HMAC_SHA1_FOR_LEGACY_USE_ONLY,
        Algorithm::SHA256 => ring::hmac::HMAC_SHA256,
        Algorithm::SHA512 => ring::hmac::HMAC_SHA512,
    };
    let key = ring::hmac::Key::new(algorithm, key);
    ring::hmac::sign(&key, msg).as_ref().to_vec()
}

/// The SHA-256 digest of `data`.
pub uninterp spec fn sha256_of(data: Seq<u8>) -> Seq<u8>;

/// Relies on ring::digest::digest with ring::digest::SHA256: the digest is a
/// function of the data and is 32 bytes long.
#[verifier::external_body]
pub(crate) fn sha256(data: &[u8]) -> (r: Vec<u8>)
    ensures
        r@ == sha256_of(data@),
        r@.len() == 32,
{
    ring::digest::digest(&ring::digest::SHA256, data).as_ref().to_vec()
}

} // verus!
