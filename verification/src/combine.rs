//! Lagrange combination of partial results: the reconstruction step shared
//! by both threshold schemes.

use vstd::prelude::*;
use std::collections::HashMap;
use crate::groups::G1Elem;
use crate::groups::g1_wf;
use crate::groups::g1_pow_of;
use crate::groups::g1_mul_of;
use crate::groups::group_identity_of;
use crate::groups::g1_identity;
use crate::groups::g1_pow;
use crate::groups::g1_mul;
use crate::poly::lam_of;
use crate::poly::lagrange;

verus! {

broadcast use vstd::std_specs::hash::group_hash_axioms;

/// The indices below `n` present in `dom`, in ascending order.
pub open spec fn present_idxs(dom: Set<u32>, n: int) -> Seq<u32>
    decreases n,
{
    if n <= 0 {
        Seq::empty()
    } else if dom.contains((n - 1) as u32) {
        present_idxs(dom, n - 1).push((n - 1) as u32)
    } else {
        present_idxs(dom, n - 1)
    }
}

/// Every index listed by `present_idxs` lies in `dom` and below `n`.
pub proof fn lemma_present_idxs_in_dom(dom: Set<u32>, n: int)
    ensures
        forall|t: int|
            0 <= t < present_idxs(dom, n).len() ==> dom.contains(#[trigger] present_idxs(dom, n)[t])
                && present_idxs(dom, n)[t] < n,
    decreases n,
{
    if n > 0 {
        lemma_present_idxs_in_dom(dom, n - 1);
        let prev = present_idxs(dom, n - 1);
        let cur = present_idxs(dom, n);
        assert forall|t: int| 0 <= t < cur.len() implies dom.contains(cur[t]) && cur[t] < n by {
            if t < prev.len() {
                assert(cur[t] == prev[t]);
            } else {
                assert(cur[t] == (n - 1) as u32);
            }
        }
    }
}

/// The Lagrange-weighted product of the shares of `m` with indices `s`: the
/// product over `j` in `s` of `m[j]` raised to the Lagrange coefficient of
/// `j` for the index set `all`, evaluated at 0.
pub open spec fn combined_of(m: Map<u32, G1Elem>, s: Seq<u32>, all: Seq<u32>) -> Seq<u8>
    decreases s.len(),
{
    if s.len() == 0 {
        group_identity_of(1)
    } else {
        g1_mul_of(
            combined_of(m, s.drop_last(), all),
            g1_pow_of(m[s.last()]@, lam_of(all, s.last())),
        )
    }
}

/// The combined result of the shares present in `shares` for a scheme with
/// `l` players: the Lagrange-weighted product over the ascending list of
/// present indices.
pub open spec fn combination_of(m: Map<u32, G1Elem>, l: u32) -> Seq<u8> {
    combined_of(m, present_idxs(m.dom(), l as int), present_idxs(m.dom(), l as int))
}

/// Combines the supplied shares by Lagrange interpolation in the exponent,
/// walking the present player indices in ascending order.
pub(crate) fn lagrange_combine(l: u32, shares: &HashMap<u32, G1Elem>) -> (r: G1Elem)
    requires
        forall|j: u32| #[trigger] shares@.dom().contains(j) ==> j < l && g1_wf(shares@[j]@),
    ensures
        g1_wf(r@),
        r@ == combination_of(shares@, l),
{
    let mut idxs: Vec<u32> = Vec::new();
    let mut j: u32 = 0;
    while j < l
        invariant
            j <= l,
            idxs@ == present_idxs(shares@.dom(), j as int),
        decreases l - j,
    {
        if shares.contains_key(&j) {
            idxs.push(j);
        }
        j = j + 1;
    }
    proof {
        lemma_present_idxs_in_dom(shares@.dom(), l as int);
    }
    let ghost all = idxs@;
    let mut combined = g1_identity();
    let mut t: usize = 0;
    while t < idxs.len()
        invariant
            t <= idxs@.len(),
            idxs@ == present_idxs(shares@.dom(), l as int),
            all == idxs@,
            forall|u: int| 0 <= u < idxs@.len() ==> shares@.dom().contains(#[trigger] idxs@[u]),
            forall|j2: u32| #[trigger] shares@.dom().contains(j2) ==> j2 < l && g1_wf(shares@[j2]@),
            g1_wf(combined@),
            combined@ == combined_of(shares@, idxs@.take(t as int), all),
        decreases idxs@.len() - t,
    {
        let jx = idxs[t];
        let lam = lagrange(&idxs, jx);
        match shares.get(&jx) {
            Some(sh) => {
                let term = g1_pow(sh, &lam);
                combined = g1_mul(&combined, &term);
            },
            None => {
                proof {
                    assert(false);
                }
            },
        }
        proof {
            assert(idxs@.take(t + 1 as int).drop_last() =~= idxs@.take(t as int));
            assert(idxs@.take(t + 1 as int).last() == idxs@[t as int]);
        }
        t = t + 1;
    }
    proof {
        assert(idxs@.take(idxs@.len() as int) =~= idxs@);
    }
    combined
}

} // verus!
