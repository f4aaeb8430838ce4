//! The (k, n) threshold encryption scheme, in the Gap-Diffie-Hellman style.
//!
//! A dealer splits a decryption key among `n` players. `encrypt` masks a
//! 32-byte message with the keystream of a fresh Diffie-Hellman value and
//! binds the ciphertext with a hash-to-group exponent; any `k` players can
//! jointly recover the mask by Lagrange interpolation in the exponent, and
//! pairing equations let anyone check the ciphertext and each share first.

use vstd::prelude::*;
use std::collections::HashMap;
use crate::bytes::xor_spec;
use crate::bytes::xor;
use crate::bytes::concat_bytes;
use crate::scalars::Scalar;
use crate::scalars::scalar_wf;
use crate::scalars::scalar_of;
use crate::scalars::scalar_random;
use crate::scalars::scalar_dup;
use crate::groups::G1Elem;
use crate::groups::G2Elem;
use crate::groups::g1_wf;
use crate::groups::g2_wf;
use crate::groups::g1_pow_of;
use crate::groups::g2_pow_of;
use crate::groups::pair_of;
use crate::groups::sha256_of;
use crate::groups::hash_g2_of;
use crate::groups::hash_to_g1;
use crate::groups::hash_to_g2;
use crate::groups::g1_valid;
use crate::groups::g2_valid;
use crate::groups::g1_pow;
use crate::groups::g2_pow;
use crate::groups::pairing_check;
use crate::groups::sha256_bytes;
use crate::poly::poly_at;
use crate::poly::scalar_views;
use crate::combine::combination_of;
use crate::combine::lagrange_combine;
use crate::dealing::gen_secrets;

verus! {

broadcast use vstd::std_specs::hash::group_hash_axioms;

/// A decryption share: a single G1 element.
pub type Share = G1Elem;

/// A ciphertext: `u` commits to the ephemeral scalar, `v` is the masked
/// 32-byte message, and `w` binds the pair against tampering.
pub struct EncryptedShare {
    /// The generator raised to the ephemeral scalar.
    pub u: G1Elem,
    /// The message XORed with the keystream of the Diffie-Hellman mask.
    pub v: Vec<u8>,
    /// The hash of `(u, v)` raised to the ephemeral scalar.
    pub w: G2Elem,
}

impl EncryptedShare {
    /// Packs a ciphertext from its parts.
    pub fn new(u: G1Elem, v: Vec<u8>, w: G2Elem) -> (r: EncryptedShare)
        ensures
            r.u == u,
            r.v == v,
            r.w == w,
    {
        EncryptedShare { u, v, w }
    }
}

/// The relation between a ciphertext and the ephemeral scalar encoding `rv`
/// that `encrypt` sampled: `u` is `g1^rv`, `v` masks the message with the
/// keystream of `vk^rv`, and `w` is `HashToG2(u ++ v)^rv`.
pub open spec fn encrypted_with(
    g1: Seq<u8>,
    vk: Seq<u8>,
    m: Seq<u8>,
    c: EncryptedShare,
    rv: Seq<u8>,
) -> bool {
    &&& scalar_wf(rv)
    &&& c.u@ == g1_pow_of(g1, rv)
    &&& c.v@ == xor_spec(m, sha256_of(g1_pow_of(vk, rv)))
    &&& c.w@ == g2_pow_of(hash_g2_of(c.u@ + c.v@), rv)
}

/// One player's share of the decryption key.
pub struct PrivateKey {
    /// The number of players.
    pub l: u32,
    /// The threshold.
    pub k: u32,
    /// This player's secret scalar: the secret polynomial at `i + 1`.
    pub sk: Scalar,
    /// This player's index, in `[0, l)`.
    pub i: u32,
}

impl PrivateKey {
    /// The held secret is a canonical scalar encoding.
    pub open spec fn wf(&self) -> bool {
        scalar_wf(self.sk@)
    }

    /// Produces this player's decryption share: `u` raised to the player's
    /// secret. Deterministic; the ciphertext's own consistency is the
    /// caller's to check first, with `PublicKey::verify_ciphertext`.
    pub fn decrypt_share(&self, uvw: &EncryptedShare) -> (r: Share)
        requires
            self.wf(),
            g1_wf(uvw.u@),
        ensures
            g1_wf(r@),
            r@ == g1_pow_of(uvw.u@, self.sk@),
    {
        g1_pow(&uvw.u, &self.sk)
    }
}

/// The public half of a dealt key set.
pub struct PublicKey {
    /// The number of players.
    pub l: u32,
    /// The threshold.
    pub k: u32,
    /// The master verification value in G1: `g1` raised to the master
    /// secret; also the base of the encryption mask.
    pub vk: G1Elem,
    /// Per-player verification values in G2: `g2` raised to each player's
    /// secret.
    pub vks: Vec<G2Elem>,
}

/// The relation between a dealt key set and the coefficient encodings `c`
/// of the secret polynomial: the shares are the polynomial's values at the
/// player points, the master verification value is `g1` raised to the
/// master secret, and the per-player values are `g2` raised to the shares.
pub open spec fn dealt_with(
    g1: Seq<u8>,
    g2: Seq<u8>,
    players: u32,
    k: u32,
    pk: PublicKey,
    sks: Seq<PrivateKey>,
    c: Seq<Seq<u8>>,
) -> bool {
    &&& c.len() == k
    &&& pk.vk@ == g1_pow_of(g1, c.first())
    &&& forall|i: int|
        0 <= i < players ==> (#[trigger] sks[i]).sk@ == poly_at(c, scalar_of((i + 1) as u64))
    &&& forall|i: int|
        0 <= i < players ==> (#[trigger] pk.vks@[i])@ == g2_pow_of(
            g2,
            poly_at(c, scalar_of((i + 1) as u64)),
        )
}

impl PublicKey {
    /// Valid parameters and canonical verification values: one value per
    /// player, threshold between 1 and the number of players.
    pub open spec fn wf(&self) -> bool {
        &&& 1 <= self.k <= self.l
        &&& self.vks@.len() == self.l
        &&& g1_wf(self.vk@)
        &&& forall|i: int| 0 <= i < self.vks@.len() ==> g2_wf((#[trigger] self.vks@[i])@)
    }

    /// Packs a public key from its parts.
    pub fn new(l: u32, k: u32, vk: G1Elem, vks: Vec<G2Elem>) -> (r: PublicKey)
        ensures
            r.l == l,
            r.k == k,
            r.vk == vk,
            r.vks == vks,
    {
        PublicKey { l, k, vk, vks }
    }

    /// Encrypts a 32-byte message: samples a fresh ephemeral scalar `r`,
    /// masks the message with the keystream of `vk^r`, and binds the pair
    /// with `HashToG2(u ++ v)^r`. The ephemeral scalar is fresh per call
    /// and never returned.
    pub fn encrypt(&self, g1: &G1Elem, m: Vec<u8>) -> (c: EncryptedShare)
        requires
            self.wf(),
            g1_wf(g1@),
            m@.len() == 32,
        ensures
            g1_wf(c.u@),
            g2_wf(c.w@),
            c.v@.len() == 32,
            exists|rv: Seq<u8>| encrypted_with(g1@, self.vk@, m@, c, rv),
    {
        let r = scalar_random();
        let u = g1_pow(g1, &r);
        let mask = g1_pow(&self.vk, &r);
        let key = sha256_bytes(&mask.b);
        let v = xor(&m, &key);
        let hin = concat_bytes(&u.b, &v);
        let hh = hash_to_g2(&hin);
        let w = g2_pow(&hh, &r);
        let c = EncryptedShare { u, v, w };
        proof {
            assert(encrypted_with(g1@, self.vk@, m@, c, r@));
        }
        c
    }

    /// Whether the ciphertext is internally consistent: the pairing of the
    /// generator with the binder `w` must agree with the pairing of `u`
    /// with the hash of `(u, v)`. Detects tampering with `u`, `v` or `w`
    /// without any secret; a byte string that is not a canonical group
    /// element is rejected.
    pub fn verify_ciphertext(&self, g1: &G1Elem, uvw: &EncryptedShare) -> (r: bool)
        requires
            g1_wf(g1@),
        ensures
            r == (g1_wf(uvw.u@) && g2_wf(uvw.w@) && pair_of(g1@, uvw.w@) == pair_of(
                uvw.u@,
                hash_g2_of(uvw.u@ + uvw.v@),
            )),
    {
        if !g1_valid(&uvw.u.b) {
            return false;
        }
        if !g2_valid(&uvw.w.b) {
            return false;
        }
        let hin = concat_bytes(&uvw.u.b, &uvw.v);
        let hh = hash_to_g2(&hin);
        pairing_check(g1, &uvw.w, &uvw.u, &hh)
    }

    /// Whether `u_i` is player `i`'s genuine decryption share for this
    /// ciphertext: the pairing of the share with the generator `g2` must
    /// agree with the pairing of `u` with player `i`'s verification value.
    /// Lets a combiner discard shares from faulty or malicious players
    /// before reconstruction.
    pub fn verify_share(&self, g2: &G2Elem, i: u32, u_i: &Share, uvw: &EncryptedShare) -> (r: bool)
        requires
            self.wf(),
            g2_wf(g2@),
            i < self.l,
        ensures
            r == (g1_wf(u_i@) && g1_wf(uvw.u@) && pair_of(u_i@, g2@) == pair_of(
                uvw.u@,
                (self.vks@[i as int])@,
            )),
    {
        if !g1_valid(&u_i.b) {
            return false;
        }
        if !g1_valid(&uvw.u.b) {
            return false;
        }
        pairing_check(u_i, g2, &uvw.u, &self.vks[i as usize])
    }

    /// Combines decryption shares and unmasks: Lagrange-combines the
    /// present shares in the exponent and XORs the keystream of the
    /// combined element with `v`. With at least `k` genuine verified
    /// shares the combined element is the encryption mask and the original
    /// message comes back; with fewer, the result is a silently wrong byte
    /// string — the combination itself cannot detect it.
    pub fn combine_shares(&self, uvw: &EncryptedShare, shares: &HashMap<u32, Share>) -> (r: Vec<
        u8,
    >)
        requires
            self.wf(),
            uvw.v@.len() == 32,
            forall|j: u32| #[trigger] shares@.dom().contains(j) ==> j < self.l && g1_wf(shares@[j]@),
        ensures
            r@ == xor_spec(sha256_of(combination_of(shares@, self.l)), uvw.v@),
            r@.len() == 32,
    {
        let combined = lagrange_combine(self.l, shares);
        let key = sha256_bytes(&combined.b);
        xor(&key, &uvw.v)
    }
}

/// Deals a fresh key set for `players` players with threshold `k`, as the
/// signature scheme's dealer does, except that the master verification
/// value lives in G1 so that `encrypt` can use it as the base of the mask.
pub fn dealer(g1: &G1Elem, g2: &G2Elem, players: u32, k: u32) -> (r: (PublicKey, Vec<PrivateKey>))
    requires
        g1_wf(g1@),
        g2_wf(g2@),
        1 <= k <= players,
    ensures
        ({
            let (pk, sks) = r;
            &&& pk.wf()
            &&& pk.l == players
            &&& pk.k == k
            &&& sks.len() == players
            &&& forall|i: int|
                0 <= i < players ==> {
                    let s = #[trigger] sks[i];
                    s.l == players && s.k == k && s.i == i && s.wf()
                }
            &&& exists|c: Seq<Seq<u8>>| dealt_with(g1@, g2@, players, k, pk, sks@, c)
        }),
{
    let (coeffs, secrets) = gen_secrets(players, k);
    let vk = g1_pow(g1, &coeffs[0]);
    let ghost c = scalar_views(coeffs@);
    let mut vks: Vec<G2Elem> = Vec::new();
    let mut sks: Vec<PrivateKey> = Vec::new();
    let mut i: u32 = 0;
    while i < players
        invariant
            i <= players,
            g2_wf(g2@),
            secrets@.len() == players,
            forall|t: int|
                0 <= t < players ==> scalar_wf((#[trigger] secrets@[t])@) && secrets@[t]@
                    == poly_at(c, scalar_of((t + 1) as u64)),
            vks@.len() == i,
            sks@.len() == i,
            forall|t: int| 0 <= t < i ==> g2_wf((#[trigger] vks@[t])@),
            forall|t: int|
                0 <= t < i ==> (#[trigger] vks@[t])@ == g2_pow_of(
                    g2@,
                    poly_at(c, scalar_of((t + 1) as u64)),
                ),
            forall|t: int|
                0 <= t < i ==> {
                    let s = #[trigger] sks@[t];
                    s.l == players && s.k == k && s.i == t && s.wf() && s.sk@ == poly_at(
                        c,
                        scalar_of((t + 1) as u64),
                    )
                },
        decreases players - i,
    {
        let vkt = g2_pow(g2, &secrets[i as usize]);
        vks.push(vkt);
        let sk = scalar_dup(&secrets[i as usize]);
        sks.push(PrivateKey { l: players, k: k, sk: sk, i: i });
        i = i + 1;
    }
    let pk = PublicKey { l: players, k: k, vk: vk, vks: vks };
    proof {
        assert(c.first() == coeffs@[0]@);
        assert(dealt_with(g1@, g2@, players, k, pk, sks@, c));
    }
    (pk, sks)
}

/// Runs one full encryption round, the scheme's whole pipeline: derives
/// generators from `gen_seed`, deals keys for `players` players with
/// threshold `k`, encrypts the 32-byte `msg`, verifies the ciphertext,
/// has the first `k` players produce decryption shares, verifies each
/// share, and combines the verified shares back into a plaintext. This is
/// the entry point for unverified callers: it rejects invalid parameters
/// instead of requiring them, returning `None` exactly when `k` is zero or
/// above `players` or `msg` is not 32 bytes, and otherwise the outcome of
/// the ciphertext check with the 32-byte combined plaintext.
pub fn encryption_round(gen_seed: Vec<u8>, msg: Vec<u8>, players: u32, k: u32) -> (r: Option<
    (bool, Vec<u8>),
>)
    ensures
        r is Some <==> (1 <= k <= players && msg@.len() == 32),
        r matches Some(p) ==> p.1@.len() == 32,
{
    if k < 1 || players < k {
        return None;
    }
    if msg.len() != 32 {
        return None;
    }
    let g1 = hash_to_g1(&gen_seed);
    let g2 = hash_to_g2(&gen_seed);
    let (pk, sks) = dealer(&g1, &g2, players, k);
    let c = pk.encrypt(&g1, msg);
    let cipher_ok = pk.verify_ciphertext(&g1, &c);
    let mut shares: HashMap<u32, Share> = HashMap::new();
    let mut i: u32 = 0;
    while i < k
        invariant
            i <= k,
            1 <= k <= players,
            g2_wf(g2@),
            g1_wf(c.u@),
            c.v@.len() == 32,
            pk.wf(),
            pk.l == players,
            sks@.len() == players,
            forall|t: int|
                0 <= t < players ==> {
                    let s = #[trigger] sks@[t];
                    s.i == t && s.wf()
                },
            forall|j: u32| #[trigger] shares@.dom().contains(j) ==> j < pk.l && g1_wf(shares@[j]@),
        decreases k - i,
    {
        let share = sks[i as usize].decrypt_share(&c);
        let ok = pk.verify_share(&g2, i, &share, &c);
        if ok {
            shares.insert(i, share);
        }
        i = i + 1;
    }
    let plain = pk.combine_shares(&c, &shares);
    Some((cipher_ok, plain))
}

/// The encryption round trip, up to the one step that only the pairing
/// group's algebra gives: if a ciphertext `c` was produced by `encrypt`
/// with ephemeral scalar `rv`, and the Lagrange combination of the
/// supplied shares equals the mask `vk^rv` — which the group guarantees
/// whenever at least `k` genuine verified shares are combined — then what
/// `combine_shares` returns is exactly the encrypted message: the
/// keystream cancels byte by byte.
pub proof fn lemma_encrypt_combine_roundtrip(
    g1: Seq<u8>,
    vk: Seq<u8>,
    m: Seq<u8>,
    c: EncryptedShare,
    rv: Seq<u8>,
    shares: Map<u32, G1Elem>,
    l: u32,
)
    requires
        m.len() == 32,
        sha256_of(g1_pow_of(vk, rv)).len() == 32,
        encrypted_with(g1, vk, m, c, rv),
        combination_of(shares, l) == g1_pow_of(vk, rv),
    ensures
        xor_spec(sha256_of(combination_of(shares, l)), c.v@) == m,
{
    let key = sha256_of(g1_pow_of(vk, rv));
    let v = c.v@;
    assert forall|i: int| 0 <= i < 32 implies xor_spec(key, v)[i] == m[i] by {
        let x = m[i];
        let y = key[i];
        assert(y ^ (x ^ y) == x) by (bit_vector);
    }
    assert(xor_spec(sha256_of(combination_of(shares, l)), c.v@) =~= m);
}

} // verus!
