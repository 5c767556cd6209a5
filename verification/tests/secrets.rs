use otp::base32::MAX_DATA_LEN;
use otp::secret;
use otp::secrets::{decode_exact, decode_secret, encode_secret, DEFAULT_KEY_LEN};
use otp::Error;

fn is_base32_char(c: char) -> bool {
    c.is_ascii_uppercase() || ('2'..='7').contains(&c) || c == '='
}

#[test]
fn default_size_is_sixty_four_bytes() {
    assert_eq!(DEFAULT_KEY_LEN, 64);
    let text = secret(0);
    let key = decode_secret(&text).unwrap();
    assert_eq!(key.len(), 64);
}

#[test]
fn secret_has_the_requested_size() {
    for size in 1usize..=40 {
        assert!(size <= MAX_DATA_LEN);
        let text = secret(size);
        let key = decode_secret(&text).unwrap();
        assert_eq!(key.len(), size);
    }
}

#[test]
fn secret_is_upper_case_base32() {
    for size in [0usize, 1, 5, 20, 33] {
        let text = secret(size);
        assert!(!text.is_empty());
        assert!(text.chars().all(is_base32_char));
        assert_eq!(text, text.to_uppercase());
    }
}

#[test]
fn secrets_are_random() {
    let zeros = encode_secret(&[0u8; 20]);
    let first = secret(20);
    let second = secret(20);
    assert_ne!(first, zeros);
    assert_ne!(second, zeros);
    assert_ne!(first, second);
}

#[test]
fn encoding_matches_known_text() {
    assert_eq!(encode_secret(b"Hello world"), "JBSWY3DPEB3W64TMMQ======");
    assert_eq!(encode_secret(b"12345678901234567890"), "GEZDGNBVGY3TQOJQGEZDGNBVGY3TQOJQ");
    assert_eq!(encode_secret(&[0u8; 20]), "AAAAAAAAAAAAAAAAAAAAAAAAAAAAAAAA");
    assert_eq!(encode_secret(&[]), "");
}

#[test]
fn decoding_matches_known_bytes() {
    assert_eq!(decode_secret("JBSWY3DPEB3W64TMMQ======"), Ok(b"Hello world".to_vec()));
    assert_eq!(
        decode_secret("GEZDGNBVGY3TQOJQGEZDGNBVGY3TQOJQ"),
        Ok(b"12345678901234567890".to_vec())
    );
    assert_eq!(decode_secret(""), Ok(Vec::new()));
}

#[test]
fn decoding_accepts_lower_case() {
    assert_eq!(decode_secret("jbswy3dpeb3w64tmmq======"), Ok(b"Hello world".to_vec()));
    assert_eq!(decode_secret("JbSwY3dPeB3w64TmMq======"), Ok(b"Hello world".to_vec()));
}

#[test]
fn decoding_rejects_what_is_not_base32() {
    assert_eq!(decode_secret("AB8*#"), Err(Error::InvalidSecretEncoding));
    assert_eq!(decode_secret("JBSWY3DPEB3W64TMMQ"), Err(Error::InvalidSecretEncoding));
    assert_eq!(decode_secret("JBSWY3DPEB3W64TMM1======"), Err(Error::InvalidSecretEncoding));
    assert_eq!(decode_secret("JBSWY3DP EB3W64TMMQ======"), Err(Error::InvalidSecretEncoding));
    assert_eq!(decode_secret("="), Err(Error::InvalidSecretEncoding));
}

#[test]
fn encoding_then_decoding_gives_the_key_back() {
    for len in 0usize..=70 {
        let key: Vec<u8> = (0..len).map(|i| (i * 37 + len) as u8).collect();
        let text = encode_secret(&key);
        assert!(text.chars().all(is_base32_char));
        assert_eq!(decode_secret(&text), Ok(key));
    }
}

#[test]
fn fresh_secret_survives_the_round_trip() {
    for size in [1usize, 10, 20, 32, 64] {
        let text = secret(size);
        let key = decode_secret(&text).unwrap();
        assert_eq!(encode_secret(&key), text);
    }
}

#[test]
fn exact_decoding_knows_upper_case_only() {
    assert_eq!(decode_exact("JBSWY3DPEB3W64TMMQ======"), Ok(b"Hello world".to_vec()));
    assert_eq!(decode_exact("jbswy3dpeb3w64tmmq======"), Err(Error::InvalidSecretEncoding));
    assert_eq!(decode_exact("JBSWY3DPEB3W64TMMq======"), Err(Error::InvalidSecretEncoding));
    assert_eq!(decode_exact("AB8*#"), Err(Error::InvalidSecretEncoding));
    assert_eq!(decode_exact(""), Ok(Vec::new()));
}

#[test]
fn exact_decoding_gives_the_key_back() {
    for len in 0usize..=70 {
        let key: Vec<u8> = (0..len).map(|i| (i * 101 + 7) as u8).collect();
        assert_eq!(decode_exact(&encode_secret(&key)), Ok(key));
    }
}

#[test]
fn text_has_eight_characters_for_five_bytes() {
    assert_eq!(encode_secret(&[]).len(), 0);
    assert_eq!(encode_secret(&[1]).len(), 8);
    assert_eq!(encode_secret(&[1; 5]).len(), 8);
    assert_eq!(encode_secret(&[1; 6]).len(), 16);
    assert_eq!(encode_secret(&[1; 20]).len(), 32);
    assert_eq!(secret(20).len(), 32);
    assert_eq!(secret(0).len(), 104);
    for len in 0usize..=70 {
        assert_eq!(encode_secret(&vec![0xa5u8; len]).len(), (len + 4) / 5 * 8);
    }
}

#[test]
fn upper_casing_follows_unicode() {
    // The long s has the upper-case form S, so this text is read as "MFSQ====".
    assert_eq!(decode_secret("mf\u{17f}q===="), decode_secret("MFSQ===="));
    assert!(decode_secret("MFSQ====").is_ok());
    assert_eq!(decode_exact("MF\u{17f}Q===="), Err(Error::InvalidSecretEncoding));
}
