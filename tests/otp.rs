use kraken_auth::otp::{code_from_tag, generate_hotp, generate_to_now, generate_totp};
use kraken_auth::Algorithm;

const RFC_KEY: &[u8] = b"12345678901234567890";

#[test]
fn hotp_matches_rfc4226_vectors() {
    let expected = [
        "755224", "287082", "359152", "969429", "338314", "254676", "287922", "162583", "399871",
        "520489",
    ];
    for (counter, code) in expected.iter().enumerate() {
        assert_eq!(generate_hotp(RFC_KEY, counter as u64, Algorithm::SHA1, 6), *code);
    }
}

#[test]
fn hotp_is_deterministic() {
    let a = generate_hotp(b"secret", 42, Algorithm::SHA256, 8);
    let b = generate_hotp(b"secret", 42, Algorithm::SHA256, 8);
    assert_eq!(a, b);
}

#[test]
fn hotp_has_requested_length_and_digits() {
    for digits in 1..=9usize {
        for alg in [Algorithm::SHA1, Algorithm::SHA256, Algorithm::SHA512] {
            let code = generate_hotp(b"another secret", 7, alg, digits);
            assert_eq!(code.len(), digits);
            assert!(code.chars().all(|c| c.is_ascii_digit()));
        }
    }
}

#[test]
fn hotp_pads_with_zeros() {
    assert_eq!(generate_hotp(RFC_KEY, 1111111109 / 30, Algorithm::SHA1, 8), "07081804");
    assert_eq!(generate_hotp(RFC_KEY, 1, Algorithm::SHA1, 1), "2");
    assert_eq!(generate_hotp(RFC_KEY, 0, Algorithm::SHA1, 9), "284755224");
}

#[test]
fn totp_matches_rfc6238_vectors() {
    assert_eq!(generate_totp(RFC_KEY, 59, 30, Algorithm::SHA1, 8), "94287082");
    assert_eq!(
        generate_totp(b"12345678901234567890123456789012", 59, 30, Algorithm::SHA256, 8),
        "46119246"
    );
    assert_eq!(
        generate_totp(
            b"1234567890123456789012345678901234567890123456789012345678901234",
            59,
            30,
            Algorithm::SHA512,
            8
        ),
        "90693936"
    );
    assert_eq!(generate_totp(RFC_KEY, 1111111109, 30, Algorithm::SHA1, 8), "07081804");
}

#[test]
fn totp_uses_whole_periods() {
    for t in [0u64, 29, 59, 1111111109, u64::MAX] {
        assert_eq!(
            generate_totp(RFC_KEY, t, 30, Algorithm::SHA1, 6),
            generate_hotp(RFC_KEY, t / 30, Algorithm::SHA1, 6)
        );
    }
}

#[test]
fn totp_is_stable_within_a_window() {
    assert_eq!(
        generate_totp(RFC_KEY, 60, 30, Algorithm::SHA1, 6),
        generate_totp(RFC_KEY, 89, 30, Algorithm::SHA1, 6)
    );
    assert_eq!(generate_totp(RFC_KEY, 60, 30, Algorithm::SHA1, 6), "359152");
    assert_eq!(generate_totp(RFC_KEY, 90, 30, Algorithm::SHA1, 6), "969429");
}

#[test]
fn totp_now_has_requested_shape() {
    let code = generate_to_now(RFC_KEY, 30, Algorithm::SHA1, 6);
    assert_eq!(code.len(), 6);
    assert!(code.chars().all(|c| c.is_ascii_digit()));
}

#[test]
fn truncation_follows_rfc4226_example() {
    let tag: [u8; 20] = [
        0x1f, 0x86, 0x98, 0x69, 0x0e, 0x02, 0xca, 0x16, 0x61, 0x85, 0x50, 0xef, 0x7f, 0x19, 0xda,
        0x8e, 0x94, 0x5b, 0x55, 0x5a,
    ];
    assert_eq!(code_from_tag(&tag, 6), "872921");
    assert_eq!(code_from_tag(&tag, 9), "357872921");
    assert_eq!(code_from_tag(&tag, 1), "1");
}

#[test]
fn truncation_clears_top_bit() {
    let mut tag = [0xffu8; 20];
    tag[19] = 0x00;
    // offset 0: bytes ff ff ff ff, top bit cleared gives 0x7fffffff
    assert_eq!(code_from_tag(&tag, 9), "147483647");
}

#[test]
fn default_algorithm_is_sha1() {
    assert_eq!(Algorithm::default(), Algorithm::SHA1);
}
