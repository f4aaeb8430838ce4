//! The dealing core shared by both schemes: sampling the secret polynomial
//! and evaluating it at every player's point.

use vstd::prelude::*;
use crate::scalars::Scalar;
use crate::scalars::scalar_wf;
use crate::scalars::scalar_of;
use crate::scalars::scalar_random;
use crate::scalars::scalar_from;
use crate::poly::scalar_views;
use crate::poly::poly_at;
use crate::poly::eval_poly;

verus! {

/// Samples `k` random polynomial coefficients (the constant term is the
/// master secret) and evaluates the polynomial at the points `1 ..= players`,
/// one secret per player.
pub(crate) fn gen_secrets(players: u32, k: u32) -> (r: (Vec<Scalar>, Vec<Scalar>))
    requires
        1 <= k <= players,
    ensures
        ({
            let (coeffs, secrets) = r;
            &&& coeffs@.len() == k
            &&& forall|i: int| 0 <= i < k ==> scalar_wf((#[trigger] coeffs@[i])@)
            &&& secrets@.len() == players
            &&& forall|i: int|
                0 <= i < players ==> scalar_wf((#[trigger] secrets@[i])@) && secrets@[i]@
                    == poly_at(scalar_views(coeffs@), scalar_of((i + 1) as u64))
        }),
{
    let mut coeffs: Vec<Scalar> = Vec::new();
    while coeffs.len() < k as usize
        invariant
            coeffs@.len() <= k,
            forall|i: int| 0 <= i < coeffs@.len() ==> scalar_wf((#[trigger] coeffs@[i])@),
        decreases k - coeffs@.len(),
    {
        coeffs.push(scalar_random());
    }
    let mut secrets: Vec<Scalar> = Vec::new();
    let mut i: u32 = 0;
    while i < players
        invariant
            i <= players,
            coeffs@.len() == k,
            forall|t: int| 0 <= t < k ==> scalar_wf((#[trigger] coeffs@[t])@),
            secrets@.len() == i,
            forall|t: int|
                0 <= t < i ==> scalar_wf((#[trigger] secrets@[t])@) && secrets@[t]@ == poly_at(
                    scalar_views(coeffs@),
                    scalar_of((t + 1) as u64),
                ),
        decreases players - i,
    {
        let x = scalar_from(i as u64 + 1);
        let s = eval_poly(&coeffs, &x);
        secrets.push(s);
        i = i + 1;
    }
    (coeffs, secrets)
}

} // verus!
