//! The secret-sharing layer: evaluation of the dealer's random polynomial
//! and Lagrange coefficients at 0, both over the scalar field.

use vstd::prelude::*;
use crate::scalars::Scalar;
use crate::scalars::scalar_wf;
use crate::scalars::scalar_of;
use crate::scalars::scalar_zero;
use crate::scalars::scalar_add_of;
use crate::scalars::scalar_sub_of;
use crate::scalars::scalar_mul_of;
use crate::scalars::scalar_inv_of;
use crate::scalars::scalar_from;
use crate::scalars::scalar_add;
use crate::scalars::scalar_sub;
use crate::scalars::scalar_mul;
use crate::scalars::scalar_invert;

verus! {

/// The canonical encodings of a sequence of scalars.
pub open spec fn scalar_views(s: Seq<Scalar>) -> Seq<Seq<u8>> {
    s.map_values(|x: Scalar| x@)
}

/// The value at the point encoded by `x` of the polynomial whose coefficient
/// encodings are `c`, constant term first, by Horner's rule.
pub open spec fn poly_at(c: Seq<Seq<u8>>, x: Seq<u8>) -> Seq<u8>
    decreases c.len(),
{
    if c.len() == 0 {
        scalar_zero()
    } else {
        scalar_add_of(c.first(), scalar_mul_of(x, poly_at(c.drop_first(), x)))
    }
}

/// The numerator of the Lagrange coefficient of player `j` for the index set
/// `s`, evaluated at 0: the product of `0 - (m + 1)` over the indices `m` of
/// `s` other than `j` (evaluation points are index plus one).
pub open spec fn lag_num(s: Seq<u32>, j: u32) -> Seq<u8>
    decreases s.len(),
{
    if s.len() == 0 {
        scalar_of(1)
    } else if s.last() == j {
        lag_num(s.drop_last(), j)
    } else {
        scalar_mul_of(
            lag_num(s.drop_last(), j),
            scalar_sub_of(scalar_of(0), scalar_of((s.last() + 1) as u64)),
        )
    }
}

/// The denominator of the Lagrange coefficient of player `j` for the index
/// set `s`: the product of `(j + 1) - (m + 1)` over the indices `m` of `s`
/// other than `j`.
pub open spec fn lag_den(s: Seq<u32>, j: u32) -> Seq<u8>
    decreases s.len(),
{
    if s.len() == 0 {
        scalar_of(1)
    } else if s.last() == j {
        lag_den(s.drop_last(), j)
    } else {
        scalar_mul_of(
            lag_den(s.drop_last(), j),
            scalar_sub_of(scalar_of((j + 1) as u64), scalar_of((s.last() + 1) as u64)),
        )
    }
}

/// The Lagrange coefficient of player `j` for the index set `s`, evaluated
/// at 0: numerator times inverse of denominator.
pub open spec fn lam_of(s: Seq<u32>, j: u32) -> Seq<u8> {
    scalar_mul_of(lag_num(s, j), scalar_inv_of(lag_den(s, j)))
}

/// Evaluates the polynomial with coefficients `c` (constant term first) at
/// the point `x`, by Horner's rule.
pub(crate) fn eval_poly(c: &Vec<Scalar>, x: &Scalar) -> (r: Scalar)
    requires
        forall|i: int| 0 <= i < c@.len() ==> scalar_wf((#[trigger] c@[i])@),
        x.wf(),
    ensures
        scalar_wf(r@),
        r@ == poly_at(scalar_views(c@), x@),
{
    let ghost views = scalar_views(c@);
    let mut acc = scalar_from(0);
    let mut idx: usize = c.len();
    while idx > 0
        invariant
            idx <= c@.len(),
            views == scalar_views(c@),
            forall|i: int| 0 <= i < c@.len() ==> scalar_wf((#[trigger] c@[i])@),
            x.wf(),
            scalar_wf(acc@),
            acc@ == poly_at(views.skip(idx as int), x@),
        decreases idx,
    {
        idx = idx - 1;
        let t = scalar_mul(x, &acc);
        acc = scalar_add(&c[idx], &t);
        proof {
            assert(views.skip(idx as int).drop_first() =~= views.skip(idx + 1 as int));
            assert(views.skip(idx as int).first() == c@[idx as int]@);
        }
    }
    proof {
        assert(views.skip(0) =~= views);
    }
    acc
}

/// Computes the Lagrange coefficient of player `j` for the index set `s`,
/// evaluated at 0. The denominator is invertible: every factor compares two
/// distinct evaluation points, and a product of nonzero field elements is
/// nonzero.
pub(crate) fn lagrange(s: &Vec<u32>, j: u32) -> (r: Scalar)
    ensures
        scalar_wf(r@),
        r@ == lam_of(s@, j),
{
    let zero = scalar_from(0);
    let xj = scalar_from(j as u64 + 1);
    let mut num = scalar_from(1);
    let mut den = scalar_from(1);
    let mut t: usize = 0;
    while t < s.len()
        invariant
            t <= s@.len(),
            zero@ == scalar_of(0),
            xj@ == scalar_of((j + 1) as u64),
            scalar_wf(zero@),
            scalar_wf(xj@),
            scalar_wf(num@),
            scalar_wf(den@),
            num@ == lag_num(s@.take(t as int), j),
            den@ == lag_den(s@.take(t as int), j),
            den@ != scalar_zero(),
        decreases s@.len() - t,
    {
        let m = s[t];
        if m != j {
            let xm = scalar_from(m as u64 + 1);
            let fnum = scalar_sub(&zero, &xm);
            let fden = scalar_sub(&xj, &xm);
            assert(xj@ != xm@);
            num = scalar_mul(&num, &fnum);
            den = scalar_mul(&den, &fden);
        }
        proof {
            assert(s@.take(t + 1 as int).drop_last() =~= s@.take(t as int));
            assert(s@.take(t + 1 as int).last() == s@[t as int]);
        }
        t = t + 1;
    }
    proof {
        assert(s@.take(s@.len() as int) =~= s@);
    }
    let dinv = scalar_invert(&den);
    scalar_mul(&num, &dinv)
}

} // verus!
