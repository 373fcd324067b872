use homebruh::errors::Error;
use homebruh::integrity::{digest_matches, eq_nocase, sha256_hex, verify};

const ABC_DIGEST: &str = "ba7816bf8f01cfea414140de5dae2223b00361a396177a9cb410ff61f20015ad";
const EMPTY_DIGEST: &str = "e3b0c44298fc1c149afbf4c8996fb92427ae41e4649b934ca495991b7852b855";

#[test]
fn sha256_hex_of_known_vectors() {
    assert_eq!(sha256_hex(b"abc"), ABC_DIGEST.as_bytes().to_vec());
    assert_eq!(sha256_hex(b""), EMPTY_DIGEST.as_bytes().to_vec());
}

#[test]
fn verify_accepts_correct_digest() {
    assert!(verify(b"abc", ABC_DIGEST.as_bytes()).is_ok());
}

#[test]
fn verify_is_case_insensitive() {
    let upper = ABC_DIGEST.to_uppercase();
    assert!(verify(b"abc", upper.as_bytes()).is_ok());
}

#[test]
fn verify_rejects_wrong_digest() {
    let r = verify(b"abc", EMPTY_DIGEST.as_bytes());
    match r {
        Err(Error::HashMismatch { expected, found }) => {
            assert_eq!(expected, EMPTY_DIGEST.as_bytes().to_vec());
            assert_eq!(found, ABC_DIGEST.as_bytes().to_vec());
        }
        other => panic!("expected a hash mismatch, got {:?}", other),
    }
}

#[test]
fn verify_rejects_swapped_content() {
    assert!(verify(b"abd", ABC_DIGEST.as_bytes()).is_err());
}

#[test]
fn digest_comparison_ignores_case_only() {
    assert!(digest_matches(b"ab12CD", b"AB12cd"));
    assert!(!digest_matches(b"ab12cd", b"ab12ce"));
    assert!(!eq_nocase(b"abc", b"abcd"));
    assert!(eq_nocase(b"", b""));
}
