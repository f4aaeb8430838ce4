//! The (k, n) threshold signature scheme.
//!
//! A dealer splits a signing key among `n` players; any `k` of them can
//! jointly produce the master signature on a hashed message, and anyone can
//! check a single share or the combined signature against published
//! verification values, using only pairing equations.

use vstd::prelude::*;
use std::collections::HashMap;
use crate::groups::hash_to_g2;
use crate::scalars::Scalar;
use crate::scalars::scalar_wf;
use crate::scalars::scalar_of;
use crate::groups::G1Elem;
use crate::groups::G2Elem;
use crate::groups::g1_wf;
use crate::groups::g2_wf;
use crate::groups::g1_pow_of;
use crate::groups::g2_pow_of;
use crate::groups::pair_of;
use crate::groups::hash_g1_of;
use crate::groups::hash_to_g1;
use crate::groups::g1_valid;
use crate::groups::g1_pow;
use crate::groups::g2_pow;
use crate::groups::pairing_check;
use crate::poly::poly_at;
use crate::poly::scalar_views;
use crate::combine::combination_of;
use crate::combine::lagrange_combine;
use crate::dealing::gen_secrets;
use crate::scalars::scalar_dup;

verus! {

broadcast use vstd::std_specs::hash::group_hash_axioms;

/// A signature or signature share: a single G1 element.
pub type Signature = G1Elem;

/// One player's share of the signing key.
pub struct PrivateKey {
    /// The number of players.
    pub l: u32,
    /// The threshold.
    pub k: u32,
    /// This player's secret scalar: the secret polynomial at `i + 1`.
    pub sk: Scalar,
    /// This player's index, in `[0, l)`.
    pub i: u32,
}

impl PrivateKey {
    /// The held secret is a canonical scalar encoding.
    pub open spec fn wf(&self) -> bool {
        scalar_wf(self.sk@)
    }

    /// Signs a hashed message: the share is the hash raised to this
    /// player's secret. Deterministic and stateless.
    pub fn sign(&self, h: &G1Elem) -> (r: Signature)
        requires
            self.wf(),
            g1_wf(h@),
        ensures
            g1_wf(r@),
            r@ == g1_pow_of(h@, self.sk@),
    {
        g1_pow(h, &self.sk)
    }
}

/// The public half of a dealt key set: the master verification value and
/// one verification value per player.
pub struct PublicKey {
    /// The number of players.
    pub l: u32,
    /// The threshold.
    pub k: u32,
    /// The master verification value: `g2` raised to the master secret.
    pub vk: G2Elem,
    /// Per-player verification values: `g2` raised to each player's secret.
    pub vks: Vec<G2Elem>,
}

/// The relation between a dealt key set and the coefficient encodings `c`
/// of the secret polynomial: there is one verification value and one share
/// per player, the shares are the polynomial's values at the player points,
/// and the verification values are `g2` raised to the master secret and to
/// the shares.
pub open spec fn dealt_with(
    g2: Seq<u8>,
    players: u32,
    k: u32,
    pk: PublicKey,
    sks: Seq<PrivateKey>,
    c: Seq<Seq<u8>>,
) -> bool {
    &&& c.len() == k
    &&& pk.vk@ == g2_pow_of(g2, c.first())
    &&& forall|i: int|
        0 <= i < players ==> (#[trigger] sks[i]).sk@ == poly_at(c, scalar_of((i + 1) as u64))
    &&& forall|i: int|
        0 <= i < players ==> (#[trigger] pk.vks@[i])@ == g2_pow_of(
            g2,
            poly_at(c, scalar_of((i + 1) as u64)),
        )
}

impl PublicKey {
    /// Valid parameters and canonical verification values: one value per
    /// player, threshold between 1 and the number of players.
    pub open spec fn wf(&self) -> bool {
        &&& 1 <= self.k <= self.l
        &&& self.vks@.len() == self.l
        &&& g2_wf(self.vk@)
        &&& forall|i: int| 0 <= i < self.vks@.len() ==> g2_wf((#[trigger] self.vks@[i])@)
    }

    /// Packs a public key from its parts.
    pub fn new(l: u32, k: u32, vk: G2Elem, vks: Vec<G2Elem>) -> (r: PublicKey)
        ensures
            r.l == l,
            r.k == k,
            r.vk == vk,
            r.vks == vks,
    {
        PublicKey { l, k, vk, vks }
    }

    /// Deterministically hashes a message into the signing group. Callers
    /// hash once and reuse the value for signing, share verification and
    /// final verification.
    pub fn hash_message(&self, m: Vec<u8>) -> (r: G1Elem)
        ensures
            g1_wf(r@),
            r@ == hash_g1_of(m@),
    {
        hash_to_g1(&m)
    }

    /// Whether `sig` is a valid master signature on the hashed message `h`:
    /// the pairing of the signature with the generator `g2` must agree with
    /// the pairing of `h` with the master verification value. A byte string
    /// that is not a canonical group element is rejected.
    pub fn verify_signature(&self, g2: &G2Elem, sig: &Signature, h: &G1Elem) -> (r: bool)
        requires
            self.wf(),
            g2_wf(g2@),
            g1_wf(h@),
        ensures
            r == (g1_wf(sig@) && pair_of(sig@, g2@) == pair_of(h@, self.vk@)),
    {
        if !g1_valid(&sig.b) {
            return false;
        }
        pairing_check(sig, g2, h, &self.vk)
    }

    /// Whether `sig` is player `i`'s genuine signature share on the hashed
    /// message `h`: the same pairing check as `verify_signature`, against
    /// player `i`'s verification value. Lets a combiner discard shares from
    /// faulty or malicious players before reconstruction.
    pub fn verify_share(&self, g2: &G2Elem, sig: &Signature, i: u32, h: &G1Elem) -> (r: bool)
        requires
            self.wf(),
            g2_wf(g2@),
            g1_wf(h@),
            i < self.l,
        ensures
            r == (g1_wf(sig@) && pair_of(sig@, g2@) == pair_of(h@, (self.vks@[i as int])@)),
    {
        if !g1_valid(&sig.b) {
            return false;
        }
        pairing_check(sig, g2, h, &self.vks[i as usize])
    }

    /// Combines signature shares by Lagrange interpolation in the exponent:
    /// the product, over the players `j` present in `sigs`, of `sigs[j]`
    /// raised to the Lagrange coefficient of `j` at 0 for the present index
    /// set. With at least `k` genuine shares the result is the unique
    /// master signature, the same for every such subset; with fewer, the
    /// result is a well-formed but wrong element that the combination
    /// itself cannot detect — `verify_signature` rejects it.
    pub fn combine_shares(&self, sigs: &HashMap<u32, Signature>) -> (r: Signature)
        requires
            self.wf(),
            forall|j: u32| #[trigger] sigs@.dom().contains(j) ==> j < self.l && g1_wf(sigs@[j]@),
        ensures
            g1_wf(r@),
            r@ == combination_of(sigs@, self.l),
    {
        lagrange_combine(self.l, sigs)
    }
}

/// Deals a fresh key set for `players` players with threshold `k`: samples
/// a random polynomial of degree `k - 1` over the scalar field (its constant
/// term is the master secret), gives player `i` the evaluation at `i + 1`,
/// and publishes `g2` raised to the master secret and to each player's
/// secret. The polynomial itself is discarded.
pub fn dealer(g2: &G2Elem, players: u32, k: u32) -> (r: (PublicKey, Vec<PrivateKey>))
    requires
        g2_wf(g2@),
        1 <= k <= players,
    ensures
        ({
            let (pk, sks) = r;
            &&& pk.wf()
            &&& pk.l == players
            &&& pk.k == k
            &&& sks.len() == players
            &&& forall|i: int|
                0 <= i < players ==> {
                    let s = #[trigger] sks[i];
                    s.l == players && s.k == k && s.i == i && s.wf()
                }
            &&& exists|c: Seq<Seq<u8>>| dealt_with(g2@, players, k, pk, sks@, c)
        }),
{
    let (coeffs, secrets) = gen_secrets(players, k);
    let vk = g2_pow(g2, &coeffs[0]);
    let ghost c = scalar_views(coeffs@);
    let mut vks: Vec<G2Elem> = Vec::new();
    let mut sks: Vec<PrivateKey> = Vec::new();
    let mut i: u32 = 0;
    while i < players
        invariant
            i <= players,
            g2_wf(g2@),
            secrets@.len() == players,
            forall|t: int|
                0 <= t < players ==> scalar_wf((#[trigger] secrets@[t])@) && secrets@[t]@
                    == poly_at(c, scalar_of((t + 1) as u64)),
            vks@.len() == i,
            sks@.len() == i,
            forall|t: int| 0 <= t < i ==> g2_wf((#[trigger] vks@[t])@),
            forall|t: int|
                0 <= t < i ==> (#[trigger] vks@[t])@ == g2_pow_of(
                    g2@,
                    poly_at(c, scalar_of((t + 1) as u64)),
                ),
            forall|t: int|
                0 <= t < i ==> {
                    let s = #[trigger] sks@[t];
                    s.l == players && s.k == k && s.i == t && s.wf() && s.sk@ == poly_at(
                        c,
                        scalar_of((t + 1) as u64),
                    )
                },
        decreases players - i,
    {
        let vkt = g2_pow(g2, &secrets[i as usize]);
        vks.push(vkt);
        let sk = scalar_dup(&secrets[i as usize]);
        sks.push(PrivateKey { l: players, k: k, sk: sk, i: i });
        i = i + 1;
    }
    let pk = PublicKey { l: players, k: k, vk: vk, vks: vks };
    proof {
        assert(c.first() == coeffs@[0]@);
        assert(dealt_with(g2@, players, k, pk, sks@, c));
    }
    (pk, sks)
}

/// Runs one full signing round, the scheme's whole pipeline: derives a
/// generator from `gen_seed`, deals keys for `players` players with
/// threshold `k`, signs the hashed `msg` with the first `k` players,
/// verifies each share, combines the verified shares, and verifies the
/// combined signature. This is the entry point for unverified callers:
/// it rejects invalid parameters instead of requiring them, returning
/// `None` exactly when `k` is zero or above `players`, and otherwise the
/// combined signature with the outcome of its verification.
pub fn signing_round(gen_seed: Vec<u8>, msg: Vec<u8>, players: u32, k: u32) -> (r: Option<
    (Signature, bool),
>)
    ensures
        r is Some <==> 1 <= k <= players,
        r matches Some(p) ==> g1_wf(p.0@),
{
    if k < 1 || players < k {
        return None;
    }
    let g2 = hash_to_g2(&gen_seed);
    let (pk, sks) = dealer(&g2, players, k);
    let h = pk.hash_message(msg);
    let mut sigs: HashMap<u32, Signature> = HashMap::new();
    let mut i: u32 = 0;
    while i < k
        invariant
            i <= k,
            1 <= k <= players,
            g2_wf(g2@),
            g1_wf(h@),
            pk.wf(),
            pk.l == players,
            sks@.len() == players,
            forall|t: int|
                0 <= t < players ==> {
                    let s = #[trigger] sks@[t];
                    s.i == t && s.wf()
                },
            forall|j: u32| #[trigger] sigs@.dom().contains(j) ==> j < pk.l && g1_wf(sigs@[j]@),
        decreases k - i,
    {
        let s = sks[i as usize].sign(&h);
        let ok = pk.verify_share(&g2, &s, i, &h);
        if ok {
            sigs.insert(i, s);
        }
        i = i + 1;
    }
    let sig = pk.combine_shares(&sigs);
    let valid = pk.verify_signature(&g2, &sig, &h);
    Some((sig, valid))
}

} // verus!
