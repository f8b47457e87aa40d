//! Counter-based (HOTP) and time-based (TOTP) one-time passwords.
use vstd::prelude::*;

use crate::clock::unix_seconds;
use crate::crypto::{hmac_of, hmac_tag};

verus! {

/// The hash that backs the HMAC of a one-time password.
#[derive(Clone, Copy, Debug, PartialEq, Eq, Structural)]
pub enum Algorithm {
    /// SHA-1, the default.
    SHA1,
    /// SHA-256.
    SHA256,
    /// SHA-512.
    SHA512,
}

impl Default for Algorithm {
    fn default() -> (r: Self)
        ensures
            r == Algorithm::SHA1,
    {
        Algorithm::SHA1
    }
}

/// `10` to the power `n`.
pub open spec fn pow10(n: nat) -> nat
    decreases n,
{
    if n == 0 {
        1
    } else {
        10 * pow10((n - 1) as nat)
    }
}

/// The counter as eight bytes, most significant first.
pub open spec fn counter_bytes(c: u64) -> Seq<u8> {
    seq![
        (c / 0x100000000000000) as u8,
        ((c / 0x1000000000000) % 256) as u8,
        ((c / 0x10000000000) % 256) as u8,
        ((c / 0x100000000) % 256) as u8,
        ((c / 0x1000000) % 256) as u8,
        ((c / 0x10000) % 256) as u8,
        ((c / 0x100) % 256) as u8,
        (c % 256) as u8,
    ]
}

/// Dynamic truncation: the low four bits of the last byte give an offset, and
/// the four bytes from there, with the top bit cleared, read big-endian.
pub open spec fn truncated(tag: Seq<u8>) -> nat {
    let o = (tag.last() % 16) as int;
    (tag[o] % 128) as nat * 0x1000000 + tag[o + 1] as nat * 0x10000 + tag[o + 2] as nat * 0x100
        + tag[o + 3] as nat
}

/// The ASCII digit for `d`.
pub open spec fn digit_char(d: nat) -> char {
    (48 + d) as char
}

/// The last `d` decimal digits of `v`, zero-padded on the left.
pub open spec fn padded_digits(v: nat, d: nat) -> Seq<char>
    decreases d,
{
    if d == 0 {
        seq![]
    } else {
        padded_digits(v / 10, (d - 1) as nat).push(digit_char(v % 10))
    }
}

/// The code that an HMAC tag yields with `d` digits.
pub open spec fn code_of_tag(tag: Seq<u8>, d: nat) -> Seq<char> {
    padded_digits(truncated(tag) % pow10(d), d)
}

/// The HOTP code for a secret and a counter.
pub open spec fn hotp_code(secret: Seq<u8>, counter: u64, alg: Algorithm, d: nat) -> Seq<char> {
    code_of_tag(hmac_of(alg, secret, counter_bytes(counter)), d)
}

/// The TOTP code of `secret` at Unix time `t`: the HOTP code at the number of
/// whole periods elapsed.
pub open spec fn totp_code(secret: Seq<u8>, t: u64, period: u64, alg: Algorithm, d: nat) -> Seq<
    char,
> {
    hotp_code(secret, (t / period) as u64, alg, d)
}

/// Powers of ten grow with the exponent.
proof fn lemma_pow10_le(a: nat, b: nat)
    requires
        a <= b,
    ensures
        1 <= pow10(a) <= pow10(b),
    decreases b,
{
    if a < b {
        lemma_pow10_le(a, (b - 1) as nat);
    } else if a > 0 {
        lemma_pow10_le((a - 1) as nat, (a - 1) as nat);
    }
}

/// The one-character string that holds the digit `k`.
fn digit_str(k: u32) -> (r: &'static str)
    requires
        k < 10,
    ensures
        r@ == seq![digit_char(k as nat)],
{
    proof {
        reveal_strlit("0");
        reveal_strlit("1");
        reveal_strlit("2");
        reveal_strlit("3");
        reveal_strlit("4");
        reveal_strlit("5");
        reveal_strlit("6");
        reveal_strlit("7");
        reveal_strlit("8");
        reveal_strlit("9");
    }
    if k == 0 {
        "0"
    } else if k == 1 {
        "1"
    } else if k == 2 {
        "2"
    } else if k == 3 {
        "3"
    } else if k == 4 {
        "4"
    } else if k == 5 {
        "5"
    } else if k == 6 {
        "6"
    } else if k == 7 {
        "7"
    } else if k == 8 {
        "8"
    } else {
        "9"
    }
}

/// Renders the last `d` decimal digits of `v`, zero-padded on the left.
fn render_digits(v: u32, d: usize) -> (r: String)
    ensures
        r@ == padded_digits(v as nat, d as nat),
    decreases d,
{
    if d == 0 {
        String::new()
    } else {
        let mut r = render_digits(v / 10, d - 1);
        r.append(digit_str(v % 10));
        r
    }
}

/// Computes `10` to the power `d`.
fn modulus(d: usize) -> (r: u32)
    requires
        d <= 9,
    ensures
        r as nat == pow10(d as nat),
        r >= 1,
{
    let mut m: u32 = 1;
    let mut i: usize = 0;
    while i < d
        invariant
            i <= d <= 9,
            m as nat == pow10(i as nat),
        decreases d - i,
    {
        proof {
            lemma_pow10_le(i as nat, 8);
            assert(pow10(8) == 100_000_000) by {
                reveal_with_fuel(pow10, 9);
            }
        }
        m = m * 10;
        i = i + 1;
    }
    proof {
        lemma_pow10_le(d as nat, d as nat);
    }
    m
}

/// Encodes the counter as eight bytes, most significant first.
fn encode_counter(c: u64) -> (r: Vec<u8>)
    ensures
        r@ == counter_bytes(c),
{
    let r: Vec<u8> = vec![
        (c / 0x100000000000000) as u8,
        ((c / 0x1000000000000) % 256) as u8,
        ((c / 0x10000000000) % 256) as u8,
        ((c / 0x100000000) % 256) as u8,
        ((c / 0x1000000) % 256) as u8,
        ((c / 0x10000) % 256) as u8,
        ((c / 0x100) % 256) as u8,
        (c % 256) as u8,
    ];
    assert(r@ =~= counter_bytes(c));
    r
}

/// Dynamic truncation of an HMAC tag to a 31-bit value.
fn truncate(tag: &[u8]) -> (r: u32)
    requires
        tag@.len() >= 20,
    ensures
        r as nat == truncated(tag@),
        r < 0x80000000,
{
    let o: usize = (tag[tag.len() - 1] % 16) as usize;
    let b0: u32 = (tag[o] % 128) as u32;
    let b1: u32 = tag[o + 1] as u32;
    let b2: u32 = tag[o + 2] as u32;
    let b3: u32 = tag[o + 3] as u32;
    b0 * 0x1000000 + b1 * 0x10000 + b2 * 0x100 + b3
}

/// Turns an HMAC tag into a code of `digits` decimal digits: dynamic
/// truncation, then the remainder modulo `10^digits`, zero-padded.
pub fn code_from_tag(tag: &[u8], digits: usize) -> (r: String)
    requires
        tag@.len() >= 20,
        1 <= digits <= 9,
    ensures
        r@ == code_of_tag(tag@, digits as nat),
        r@.len() == digits,
        forall|i: int| 0 <= i < r@.len() ==> '0' <= #[trigger] r@[i] <= '9',
{
    let value = truncate(tag) % modulus(digits);
    let r = render_digits(value, digits);
    proof {
        lemma_padded_digits_shape(value as nat, digits as nat);
    }
    r
}

/// A padded rendering has exactly `d` characters, each a decimal digit.
pub proof fn lemma_padded_digits_shape(v: nat, d: nat)
    ensures
        padded_digits(v, d).len() == d,
        forall|i: int| 0 <= i < d ==> '0' <= #[trigger] padded_digits(v, d)[i] <= '9',
    decreases d,
{
    if d > 0 {
        lemma_padded_digits_shape(v / 10, (d - 1) as nat);
    }
}

/// The HOTP code of `secret` at `counter`: the HMAC of the counter's eight
/// big-endian bytes under the secret, truncated and reduced to `digits`
/// decimal digits. At most nine digits are offered: `10^9` is the largest
/// power of ten below the 31-bit range of the truncated value.
pub fn generate_hotp(secret: &[u8], counter: u64, algorithm: Algorithm, digits: usize) -> (r:
    String)
    requires
        secret@.len() > 0,
        1 <= digits <= 9,
    ensures
        r@ == hotp_code(secret@, counter, algorithm, digits as nat),
        r@.len() == digits,
        forall|i: int| 0 <= i < r@.len() ==> '0' <= #[trigger] r@[i] <= '9',
{
    let message = encode_counter(counter);
    let tag = hmac_tag(algorithm, secret, message.as_slice());
    code_from_tag(tag.as_slice(), digits)
}

/// The TOTP code of `secret` at Unix time `unix_time`: the HOTP code at
/// counter `unix_time / period`.
pub fn generate_totp(
    secret: &[u8],
    unix_time: u64,
    period: u64,
    algorithm: Algorithm,
    digits: usize,
) -> (r: String)
    requires
        secret@.len() > 0,
        period > 0,
        1 <= digits <= 9,
    ensures
        r@ == totp_code(secret@, unix_time, period, algorithm, digits as nat),
        r@ == hotp_code(secret@, (unix_time / period) as u64, algorithm, digits as nat),
        r@.len() == digits,
        forall|i: int| 0 <= i < r@.len() ==> '0' <= #[trigger] r@[i] <= '9',
{
    generate_hotp(secret, unix_time / period, algorithm, digits)
}

/// The TOTP code of `secret` at the current wall-clock time.
pub fn generate_to_now(secret: &[u8], period: u64, algorithm: Algorithm, digits: usize) -> (r:
    String)
    requires
        secret@.len() > 0,
        period > 0,
        1 <= digits <= 9,
    ensures
        exists|t: u64| r@ == #[trigger] totp_code(secret@, t, period, algorithm, digits as nat),
        r@.len() == digits,
        forall|i: int| 0 <= i < r@.len() ==> '0' <= #[trigger] r@[i] <= '9',
{
    let now = unix_seconds();
    let r = generate_totp(secret, now, period, algorithm, digits);
    assert(r@ == totp_code(secret@, now, period, algorithm, digits as nat));
    r
}

/// HOTP is a function of its inputs: two codes computed from the same
/// secret, counter, algorithm and length are the same.
pub proof fn lemma_hotp_deterministic(
    secret: Seq<u8>,
    counter: u64,
    alg: Algorithm,
    d: nat,
    first: Seq<char>,
    second: Seq<char>,
)
    requires
        first == hotp_code(secret, counter, alg, d),
        second == hotp_code(secret, counter, alg, d),
    ensures
        first == second,
{
}

/// A HOTP code has exactly as many characters as digits were asked for,
/// each of them a decimal digit.
pub proof fn lemma_hotp_shape(secret: Seq<u8>, counter: u64, alg: Algorithm, d: nat)
    ensures
        hotp_code(secret, counter, alg, d).len() == d,
        forall|i: int|
            0 <= i < d ==> '0' <= #[trigger] hotp_code(secret, counter, alg, d)[i] <= '9',
{
    let tag = hmac_of(alg, secret, counter_bytes(counter));
    lemma_padded_digits_shape(truncated(tag) % pow10(d), d);
}

/// A TOTP code is the HOTP code at the number of whole periods elapsed.
pub proof fn lemma_totp_counter(secret: Seq<u8>, t: u64, period: u64, alg: Algorithm, d: nat)
    requires
        period > 0,
    ensures
        totp_code(secret, t, period, alg, d) == hotp_code(secret, (t / period) as u64, alg, d),
{
}

/// Two times within one period window give the same TOTP code.
pub proof fn lemma_totp_window_stable(
    secret: Seq<u8>,
    t1: u64,
    t2: u64,
    period: u64,
    alg: Algorithm,
    d: nat,
)
    requires
        period > 0,
        t1 / period == t2 / period,
    ensures
        totp_code(secret, t1, period, alg, d) == totp_code(secret, t2, period, alg, d),
{
}

} // verus!
