use recovery_upgrade::checksum::decode_hex;
use recovery_upgrade::checksum::validate_checksum;
use recovery_upgrade::checksum::validate_digest;
use recovery_upgrade::checksum::ValidateError;

const ABC: &str = "ba7816bf8f01cfea414140de5dae2223b00361a396177a9cb410ff61f20015ad";
const EMPTY: &str = "e3b0c44298fc1c149afbf4c8996fb92427ae41e4649b934ca495991b7852b855";

fn hex(bytes: &[u8]) -> String {
    let mut text = String::new();
    for byte in bytes {
        text.push_str(&format!("{:02x}", byte));
    }
    text
}

#[test]
fn decode_hex_reads_pairs_of_digits() {
    assert_eq!(decode_hex(""), Some(vec![]));
    assert_eq!(decode_hex("00"), Some(vec![0]));
    assert_eq!(decode_hex("00ff"), Some(vec![0, 255]));
    assert_eq!(decode_hex("0123456789abcdef"), Some(vec![0x01, 0x23, 0x45, 0x67, 0x89, 0xab, 0xcd, 0xef]));
    assert_eq!(decode_hex("ABCDEF"), Some(vec![0xab, 0xcd, 0xef]));
    assert_eq!(decode_hex("aBcD"), Some(vec![0xab, 0xcd]));
    assert_eq!(decode_hex("10"), Some(vec![16]));
    assert_eq!(decode_hex("01"), Some(vec![1]));
}

#[test]
fn decode_hex_rejects_what_is_not_hexadecimal() {
    assert_eq!(decode_hex("0"), None);
    assert_eq!(decode_hex("abc"), None);
    assert_eq!(decode_hex("0g"), None);
    assert_eq!(decode_hex("g0"), None);
    assert_eq!(decode_hex("0x10"), None);
    assert_eq!(decode_hex(" 10"), None);
    assert_eq!(decode_hex("10\n"), None);
    assert_eq!(decode_hex("/0"), None);
    assert_eq!(decode_hex(":0"), None);
    assert_eq!(decode_hex("@0"), None);
    assert_eq!(decode_hex("G0"), None);
    assert_eq!(decode_hex("`0"), None);
    assert_eq!(decode_hex("é0"), None);
    assert_eq!(decode_hex("é"), None);
    assert_eq!(decode_hex("１０"), None);
}

#[test]
fn decode_hex_inverts_writing_in_hexadecimal() {
    let bytes: Vec<u8> = (0..=255u8).collect();
    assert_eq!(decode_hex(&hex(&bytes)), Some(bytes.clone()));
    assert_eq!(decode_hex(&hex(&bytes).to_uppercase()), Some(bytes));
}

#[test]
fn validate_digest_accepts_exactly_the_announced_digest() {
    assert!(matches!(validate_digest(&[0xde, 0xad, 0xbe, 0xef], "deadbeef"), Ok(())));
    assert!(matches!(validate_digest(&[0xde, 0xad, 0xbe, 0xef], "DEADBEEF"), Ok(())));
    assert!(matches!(validate_digest(&[], ""), Ok(())));
    assert!(matches!(
        validate_digest(&[0xde, 0xad, 0xbe, 0xef], "deadbeee"),
        Err(ValidateError::Mismatch)
    ));
    assert!(matches!(
        validate_digest(&[0xde, 0xad, 0xbe, 0xef], "deadbe"),
        Err(ValidateError::Mismatch)
    ));
    assert!(matches!(
        validate_digest(&[0xde, 0xad, 0xbe], "deadbeef"),
        Err(ValidateError::Mismatch)
    ));
    assert!(matches!(
        validate_digest(&[0xde, 0xad, 0xbe, 0xef], "deadbeefx"),
        Err(ValidateError::InvalidInput)
    ));
    assert!(matches!(
        validate_digest(&[0xde, 0xad, 0xbe, 0xef], "deadbee"),
        Err(ValidateError::InvalidInput)
    ));
    assert!(matches!(validate_digest(&[], "zz"), Err(ValidateError::InvalidInput)));
}

#[test]
fn validate_checksum_accepts_content_against_its_own_digest() {
    assert!(matches!(validate_checksum(b"abc", ABC), Ok(())));
    assert!(matches!(validate_checksum(b"abc", &ABC.to_uppercase()), Ok(())));
    assert!(matches!(validate_checksum(b"", EMPTY), Ok(())));
}

#[test]
fn validate_checksum_rejects_other_content() {
    assert!(matches!(validate_checksum(b"abd", ABC), Err(ValidateError::Mismatch)));
    assert!(matches!(validate_checksum(b"", ABC), Err(ValidateError::Mismatch)));
    assert!(matches!(validate_checksum(b"abc", EMPTY), Err(ValidateError::Mismatch)));
    assert!(matches!(validate_checksum(ABC.as_bytes(), ABC), Err(ValidateError::Mismatch)));
}

#[test]
fn validate_checksum_fails_when_any_byte_is_flipped() {
    for at in 0..3 {
        for bit in 0..8 {
            let mut flipped = b"abc".to_vec();
            flipped[at] ^= 1 << bit;
            assert!(matches!(validate_checksum(&flipped, ABC), Err(ValidateError::Mismatch)));
            flipped[at] ^= 1 << bit;
            assert!(matches!(validate_checksum(&flipped, ABC), Ok(())));
        }
    }
}

#[test]
fn validate_checksum_rejects_a_digest_that_is_not_hexadecimal() {
    assert!(matches!(validate_checksum(b"abc", "sha256:ba78"), Err(ValidateError::InvalidInput)));
    assert!(matches!(validate_checksum(b"abc", &ABC[1..]), Err(ValidateError::InvalidInput)));
    assert!(matches!(validate_checksum(b"abc", &ABC[2..]), Err(ValidateError::Mismatch)));
    assert!(matches!(validate_checksum(b"abc", ""), Err(ValidateError::Mismatch)));
}
