//! Tests of the threshold signature scheme.

use std::collections::HashMap;
use threshold_crypto_core::boldyreva::{dealer, Signature};
use threshold_crypto_core::groups::{hash_to_g2, G1Elem};

#[test]
fn test_boldyreva() {
    let g2 = hash_to_g2(&"generate_g2".as_bytes().to_vec());

    let (public_key, secret_keys) = dealer(&g2, 64, 17);

    let h = public_key.hash_message(vec![0u8; 32]);

    let mut sigs: HashMap<u32, Signature> = HashMap::new();
    for secret_key in &secret_keys {
        sigs.insert(secret_key.i, secret_key.sign(&h));
    }

    let sigs: HashMap<u32, Signature> = sigs.drain().take(public_key.k as usize).collect();

    let sig = public_key.combine_shares(&sigs);

    assert!(public_key.verify_signature(&g2, &sig, &h));
}

#[test]
fn sign_two_subsets_give_identical_signature() {
    let g2 = hash_to_g2(&"subset generator".as_bytes().to_vec());
    let (pk, sks) = dealer(&g2, 5, 3);
    let h = pk.hash_message("a fixed message".as_bytes().to_vec());

    let mut first: HashMap<u32, Signature> = HashMap::new();
    for i in [0usize, 2, 4] {
        first.insert(sks[i].i, sks[i].sign(&h));
    }
    let sig_a = pk.combine_shares(&first);
    assert!(pk.verify_signature(&g2, &sig_a, &h));

    let mut second: HashMap<u32, Signature> = HashMap::new();
    for i in [1usize, 2, 3] {
        second.insert(sks[i].i, sks[i].sign(&h));
    }
    let sig_b = pk.combine_shares(&second);

    assert_eq!(sig_a.b, sig_b.b);
}

#[test]
fn verify_share_accepts_honest_shares() {
    let g2 = hash_to_g2(&"share generator".as_bytes().to_vec());
    let (pk, sks) = dealer(&g2, 4, 2);
    let h = pk.hash_message("honest shares".as_bytes().to_vec());
    for sk in &sks {
        let sig = sk.sign(&h);
        assert!(pk.verify_share(&g2, &sig, sk.i, &h));
    }
}

#[test]
fn verify_share_rejects_wrong_player() {
    let g2 = hash_to_g2(&"wrong player".as_bytes().to_vec());
    let (pk, sks) = dealer(&g2, 4, 2);
    let h = pk.hash_message("wrong player message".as_bytes().to_vec());
    let sig_of_one = sks[1].sign(&h);
    assert!(!pk.verify_share(&g2, &sig_of_one, 0, &h));
}

#[test]
fn verify_share_rejects_tampered_message() {
    let g2 = hash_to_g2(&"tampered message".as_bytes().to_vec());
    let (pk, sks) = dealer(&g2, 4, 2);
    let h = pk.hash_message("original".as_bytes().to_vec());
    let h_other = pk.hash_message("tampered".as_bytes().to_vec());
    let sig = sks[0].sign(&h);
    assert!(!pk.verify_share(&g2, &sig, 0, &h_other));
}

#[test]
fn verify_signature_rejects_under_threshold_combination() {
    let g2 = hash_to_g2(&"under threshold signing".as_bytes().to_vec());
    let (pk, sks) = dealer(&g2, 5, 3);
    let h = pk.hash_message("needs three".as_bytes().to_vec());
    let mut sigs: HashMap<u32, Signature> = HashMap::new();
    for i in [0usize, 1] {
        sigs.insert(sks[i].i, sks[i].sign(&h));
    }
    let sig = pk.combine_shares(&sigs);
    assert!(!pk.verify_signature(&g2, &sig, &h));
}

#[test]
fn verify_signature_rejects_non_canonical_bytes() {
    let g2 = hash_to_g2(&"non canonical".as_bytes().to_vec());
    let (pk, _sks) = dealer(&g2, 3, 2);
    let h = pk.hash_message("some message".as_bytes().to_vec());
    let garbage = G1Elem { b: vec![0u8; 48] };
    assert!(!pk.verify_signature(&g2, &garbage, &h));
    let short = G1Elem { b: vec![1, 2, 3] };
    assert!(!pk.verify_signature(&g2, &short, &h));
}

#[test]
fn rebuilt_public_key_verifies_the_same_signature() {
    let g2 = hash_to_g2(&"rebuild".as_bytes().to_vec());
    let (pk, sks) = dealer(&g2, 3, 2);
    let h = pk.hash_message("rebuilt key".as_bytes().to_vec());
    let mut sigs: HashMap<u32, Signature> = HashMap::new();
    for i in [0usize, 1] {
        sigs.insert(sks[i].i, sks[i].sign(&h));
    }
    let sig = pk.combine_shares(&sigs);
    let pk2 = threshold_crypto_core::boldyreva::PublicKey::new(pk.l, pk.k, pk.vk, pk.vks);
    assert!(pk2.verify_signature(&g2, &sig, &h));
}
