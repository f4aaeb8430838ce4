//! Tests of the byte-string primitives.

use threshold_crypto_core::bytes::{concat_bytes, xor};

#[test]
fn xor_masks_and_unmasks() {
    let m: Vec<u8> = (0u8..32).collect();
    let pad: Vec<u8> = (100u8..132).collect();
    let masked = xor(&m, &pad);
    assert_ne!(m, masked);
    let unmasked = xor(&masked, &pad);
    assert_eq!(m, unmasked);
}

#[test]
fn xor_concrete_values() {
    let a = vec![0b1010u8, 0xff, 0x00];
    let b = vec![0b0110u8, 0x0f, 0x00];
    assert_eq!(xor(&a, &b), vec![0b1100u8, 0xf0, 0x00]);
}

#[test]
fn concat_joins_in_order() {
    let a = vec![1u8, 2, 3];
    let b = vec![4u8, 5];
    assert_eq!(concat_bytes(&a, &b), vec![1, 2, 3, 4, 5]);
    let empty: Vec<u8> = Vec::new();
    assert_eq!(concat_bytes(&empty, &b), vec![4, 5]);
    assert_eq!(concat_bytes(&a, &empty), vec![1, 2, 3]);
}
