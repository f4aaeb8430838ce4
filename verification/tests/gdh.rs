//! Tests of the threshold encryption scheme.

use std::collections::HashMap;
use threshold_crypto_core::gdh::{dealer, Share};
use threshold_crypto_core::groups::{hash_to_g1, hash_to_g2};

#[test]
fn test_gdh() {
    let g1 = hash_to_g1(&"generate_g1".as_bytes().to_vec());
    let g2 = hash_to_g2(&"generate_g1".as_bytes().to_vec());

    let (public_key, secret_keys) = dealer(&g1, &g2, 100, 35);

    let m = vec![1u8; 32];
    let c = public_key.encrypt(&g1, m.clone());
    assert!(public_key.verify_ciphertext(&g1, &c));

    let mut valid_shares: HashMap<u32, Share> = HashMap::new();
    let mut i: u32 = 0;
    for secret_key in &secret_keys {
        let share = secret_key.decrypt_share(&c);
        assert!(public_key.verify_share(&g2, i, &share, &c));
        valid_shares.insert(i, share);
        i += 1;
    }

    let valid_shares: HashMap<u32, Share> =
        valid_shares.drain().take(public_key.k as usize).collect();

    let r = public_key.combine_shares(&c, &valid_shares);

    assert_eq!(m.clone(), r.clone());
}

#[test]
fn encrypt_roundtrip_any_threshold_subset() {
    let g1 = hash_to_g1(&"roundtrip g1".as_bytes().to_vec());
    let g2 = hash_to_g2(&"roundtrip g2".as_bytes().to_vec());
    let (pk, sks) = dealer(&g1, &g2, 5, 3);

    let mut m = vec![0u8; 32];
    for (t, byte) in m.iter_mut().enumerate() {
        *byte = t as u8;
    }
    let c = pk.encrypt(&g1, m.clone());

    let mut first: HashMap<u32, Share> = HashMap::new();
    for i in [0usize, 1, 2] {
        first.insert(sks[i].i, sks[i].decrypt_share(&c));
    }
    assert_eq!(m, pk.combine_shares(&c, &first));

    let mut second: HashMap<u32, Share> = HashMap::new();
    for i in [2usize, 3, 4] {
        second.insert(sks[i].i, sks[i].decrypt_share(&c));
    }
    assert_eq!(m, pk.combine_shares(&c, &second));
}

#[test]
fn verify_ciphertext_rejects_single_byte_tampering() {
    let g1 = hash_to_g1(&"tamper g1".as_bytes().to_vec());
    let g2 = hash_to_g2(&"tamper g2".as_bytes().to_vec());
    let (pk, _sks) = dealer(&g1, &g2, 3, 2);

    let m = vec![7u8; 32];
    let c = pk.encrypt(&g1, m);
    assert!(pk.verify_ciphertext(&g1, &c));

    let mut tampered_v = pk.encrypt(&g1, vec![7u8; 32]);
    tampered_v.v[0] ^= 1;
    assert!(!pk.verify_ciphertext(&g1, &tampered_v));

    let mut tampered_u = pk.encrypt(&g1, vec![7u8; 32]);
    tampered_u.u.b[5] ^= 1;
    assert!(!pk.verify_ciphertext(&g1, &tampered_u));

    let mut tampered_w = pk.encrypt(&g1, vec![7u8; 32]);
    tampered_w.w.b[5] ^= 1;
    assert!(!pk.verify_ciphertext(&g1, &tampered_w));
}

#[test]
fn verify_share_rejects_wrong_player_and_tampered_ciphertext() {
    let g1 = hash_to_g1(&"share g1".as_bytes().to_vec());
    let g2 = hash_to_g2(&"share g2".as_bytes().to_vec());
    let (pk, sks) = dealer(&g1, &g2, 4, 2);

    let c = pk.encrypt(&g1, vec![3u8; 32]);
    let share_of_one = sks[1].decrypt_share(&c);
    assert!(pk.verify_share(&g2, 1, &share_of_one, &c));
    assert!(!pk.verify_share(&g2, 0, &share_of_one, &c));

    let c_other = pk.encrypt(&g1, vec![4u8; 32]);
    assert!(!pk.verify_share(&g2, 1, &share_of_one, &c_other));
}

#[test]
fn decrypt_share_is_deterministic() {
    let g1 = hash_to_g1(&"deterministic g1".as_bytes().to_vec());
    let g2 = hash_to_g2(&"deterministic g2".as_bytes().to_vec());
    let (pk, sks) = dealer(&g1, &g2, 3, 2);
    let c = pk.encrypt(&g1, vec![9u8; 32]);
    let a = sks[2].decrypt_share(&c);
    let b = sks[2].decrypt_share(&c);
    assert_eq!(a.b, b.b);
}

#[test]
fn encrypt_uses_a_fresh_scalar_each_call() {
    let g1 = hash_to_g1(&"freshness g1".as_bytes().to_vec());
    let g2 = hash_to_g2(&"freshness g2".as_bytes().to_vec());
    let (pk, _sks) = dealer(&g1, &g2, 3, 2);
    let c1 = pk.encrypt(&g1, vec![5u8; 32]);
    let c2 = pk.encrypt(&g1, vec![5u8; 32]);
    assert_ne!(c1.u.b, c2.u.b);
    assert_ne!(c1.v, c2.v);
}

#[test]
fn combine_with_under_threshold_shares_gives_wrong_plaintext() {
    let g1 = hash_to_g1(&"under threshold g1".as_bytes().to_vec());
    let g2 = hash_to_g2(&"under threshold g2".as_bytes().to_vec());
    let (pk, sks) = dealer(&g1, &g2, 5, 3);

    let m = vec![42u8; 32];
    let c = pk.encrypt(&g1, m.clone());

    let mut few: HashMap<u32, Share> = HashMap::new();
    for i in [0usize, 1] {
        let share = sks[i].decrypt_share(&c);
        assert!(pk.verify_share(&g2, sks[i].i, &share, &c));
        few.insert(sks[i].i, share);
    }
    let wrong = pk.combine_shares(&c, &few);
    assert_eq!(wrong.len(), 32);
    assert_ne!(m, wrong);
}

#[test]
fn rebuilt_public_key_and_ciphertext_behave_identically() {
    let g1 = hash_to_g1(&"rebuild g1".as_bytes().to_vec());
    let g2 = hash_to_g2(&"rebuild g2".as_bytes().to_vec());
    let (pk, sks) = dealer(&g1, &g2, 3, 2);

    let m = vec![11u8; 32];
    let c = pk.encrypt(&g1, m.clone());

    let pk2 = threshold_crypto_core::gdh::PublicKey::new(pk.l, pk.k, pk.vk, pk.vks);
    let c2 = threshold_crypto_core::gdh::EncryptedShare::new(c.u, c.v, c.w);
    assert!(pk2.verify_ciphertext(&g1, &c2));

    let mut shares: HashMap<u32, Share> = HashMap::new();
    for i in [0usize, 1] {
        let share = sks[i].decrypt_share(&c2);
        assert!(pk2.verify_share(&g2, sks[i].i, &share, &c2));
        shares.insert(sks[i].i, share);
    }
    assert_eq!(m, pk2.combine_shares(&c2, &shares));
}
