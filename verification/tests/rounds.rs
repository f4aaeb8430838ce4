//! Tests of the full-pipeline round entry points.

use threshold_crypto_core::boldyreva::signing_round;
use threshold_crypto_core::gdh::encryption_round;

#[test]
fn signing_round_succeeds_and_verifies() {
    let r = signing_round(
        "round seed".as_bytes().to_vec(),
        "round message".as_bytes().to_vec(),
        7,
        4,
    );
    let (_sig, valid) = r.expect("valid parameters");
    assert!(valid);
}

#[test]
fn signing_round_rejects_bad_parameters() {
    assert!(signing_round(vec![1], vec![2], 5, 0).is_none());
    assert!(signing_round(vec![1], vec![2], 3, 4).is_none());
    assert!(signing_round(vec![1], vec![2], 0, 0).is_none());
}

#[test]
fn encryption_round_recovers_the_message() {
    let m: Vec<u8> = (0u8..32).collect();
    let r = encryption_round("round seed".as_bytes().to_vec(), m.clone(), 6, 3);
    let (cipher_ok, plain) = r.expect("valid parameters");
    assert!(cipher_ok);
    assert_eq!(m, plain);
}

#[test]
fn encryption_round_rejects_bad_parameters() {
    assert!(encryption_round(vec![1], vec![0u8; 32], 5, 0).is_none());
    assert!(encryption_round(vec![1], vec![0u8; 32], 2, 3).is_none());
    assert!(encryption_round(vec![1], vec![0u8; 31], 5, 3).is_none());
    assert!(encryption_round(vec![1], vec![0u8; 33], 5, 3).is_none());
}
