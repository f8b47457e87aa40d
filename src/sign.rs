//! Request signatures: an HMAC-SHA-512 over the request path and a SHA-256
//! digest of the nonce and body, encoded in base64.
use vstd::prelude::*;
use vstd::string::StringSliceAdditionalSpecFns;

use crate::crypto::{hmac_of, hmac_tag, sha256, sha256_of};
use crate::encoding::{
    append_bytes, base64, base64_encode, decimal, decimal_bytes, lemma_decimal_injective,
};
use crate::otp::Algorithm;

verus! {

/// What is hashed: the nonce in decimal, then the body.
pub open spec fn digest_input(nonce: u64, body: Seq<u8>) -> Seq<u8> {
    decimal(nonce as nat) + body
}

/// What is authenticated: `/0/`, the path, then the digest.
pub open spec fn signed_message(path: Seq<u8>, digest: Seq<u8>) -> Seq<u8> {
    seq![47u8, 48u8, 47u8] + path + digest
}

/// The signature of a request with the given path bytes, body and nonce
/// under `key`.
pub open spec fn signature(path: Seq<u8>, body: Seq<u8>, nonce: u64, key: Seq<u8>) -> Seq<char> {
    base64(
        hmac_of(Algorithm::SHA512, key, signed_message(path, sha256_of(digest_input(nonce, body)))),
    )
}

/// Builds the bytes to hash: the nonce in decimal, then the body.
pub fn hash_input(nonce: u64, payload: &[u8]) -> (r: Vec<u8>)
    ensures
        r@ == digest_input(nonce, payload@),
{
    let mut input = decimal_bytes(nonce);
    append_bytes(&mut input, payload);
    input
}

/// Builds the bytes to authenticate: `/0/`, the path, then the digest.
pub fn mac_input(path: &str, digest: &[u8]) -> (r: Vec<u8>)
    ensures
        r@ == signed_message(path.spec_bytes(), digest@),
{
    let mut input: Vec<u8> = vec![47u8, 48u8, 47u8];
    append_bytes(&mut input, path.as_bytes());
    append_bytes(&mut input, digest);
    input
}

/// Signs a request: HMAC-SHA-512 under `api_key` (the decoded secret) of
/// `/0/`, the path and the SHA-256 digest of the nonce in decimal followed by
/// the payload, encoded in standard base64.
pub fn generate(path: &str, payload: &[u8], nonce: u64, api_key: &[u8]) -> (r: String)
    requires
        api_key@.len() > 0,
    ensures
        r@ == signature(path.spec_bytes(), payload@, nonce, api_key@),
{
    let input = hash_input(nonce, payload);
    let digest = sha256(input.as_slice());
    let message = mac_input(path, digest.as_slice());
    let tag = hmac_tag(Algorithm::SHA512, api_key, message.as_slice());
    base64_encode(tag.as_slice())
}

/// Signing is a function of its inputs: two signatures of the same path,
/// body and nonce under the same key are the same.
pub proof fn lemma_signature_deterministic(
    path: Seq<u8>,
    body: Seq<u8>,
    nonce: u64,
    key: Seq<u8>,
    first: Seq<char>,
    second: Seq<char>,
)
    requires
        first == signature(path, body, nonce, key),
        second == signature(path, body, nonce, key),
    ensures
        first == second,
{
}

/// What is hashed differs when only the body or only the nonce differs.
pub proof fn lemma_digest_input_injective(n1: u64, b1: Seq<u8>, n2: u64, b2: Seq<u8>)
    requires
        digest_input(n1, b1) == digest_input(n2, b2),
        n1 == n2 || b1 == b2,
    ensures
        n1 == n2,
        b1 == b2,
{
    let d1 = decimal(n1 as nat);
    let d2 = decimal(n2 as nat);
    if n1 == n2 {
        assert(b1 =~= digest_input(n1, b1).subrange(d1.len() as int, digest_input(n1, b1).len() as int));
        assert(b2 =~= digest_input(n2, b2).subrange(d2.len() as int, digest_input(n2, b2).len() as int));
    } else {
        assert(d1 =~= digest_input(n1, b1).subrange(0, d1.len() as int));
        assert(d2 =~= digest_input(n2, b2).subrange(0, d2.len() as int));
        lemma_decimal_injective(n1 as nat, n2 as nat);
    }
}

/// What is authenticated differs when only the path differs.
pub proof fn lemma_signed_message_injective(p1: Seq<u8>, p2: Seq<u8>, digest: Seq<u8>)
    requires
        signed_message(p1, digest) == signed_message(p2, digest),
    ensures
        p1 == p2,
{
    let m1 = signed_message(p1, digest);
    let m2 = signed_message(p2, digest);
    assert(m1.len() == 3 + p1.len() + digest.len());
    assert(m2.len() == 3 + p2.len() + digest.len());
    assert(p1.len() == p2.len());
    assert(p1 =~= m1.subrange(3, 3 + p1.len() as int));
    assert(p2 =~= m2.subrange(3, 3 + p2.len() as int));
}

/// With an empty body, what is hashed is the nonce in decimal alone.
pub proof fn lemma_empty_body_digest(nonce: u64)
    ensures
        digest_input(nonce, Seq::empty()) == decimal(nonce as nat),
{
    assert(digest_input(nonce, Seq::empty()) =~= decimal(nonce as nat));
}

} // verus!
