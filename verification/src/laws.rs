//! Crate-wide laws: properties that relate several operations, stated and
//! proved over the same sequence-level models that the operations'
//! contracts use.

use vstd::prelude::*;

use crate::constant_seq;
use crate::impl_ops_dual::mul_seq;
use crate::impl_ops_scalar_rhs::mul_scalar_seq;
use crate::neg_seq;
use crate::powdual_seq;
use crate::traits::scalars::Scalar;

verus! {

/// Negation is self-inverse: negating a dual number's content twice gives
/// back exactly the original content, value and every derivative alike.
pub proof fn lemma_neg_involutive<F: Scalar>(a: Seq<F>)
    ensures
        neg_seq(neg_seq(a)) == a,
{
    assert forall|i: int| 0 <= i < a.len() implies neg_seq(neg_seq(a))[i] == a[i] by {
        F::neg_involutive(a[i]);
    }
    assert(neg_seq(neg_seq(a)) =~= a);
}

/// Raising a dual number whose value equals zero to a dual exponent gives
/// a result whose value equals zero and whose derivatives are all exactly
/// the zero scalar, whatever the exponent holds: the zero base
/// short-circuits the general power rule before any ill-defined term can
/// arise.
pub proof fn lemma_powdual_zero_base<F: Scalar>(a: Seq<F>, b: Seq<F>)
    requires
        a.len() >= 1,
        a[0].eq_sp(F::zero_sp()),
    ensures
        powdual_seq(a, b).len() == a.len(),
        powdual_seq(a, b)[0].eq_sp(F::zero_sp()),
        forall|i: int| 1 <= i < a.len() ==> powdual_seq(a, b)[i] == F::zero_sp(),
{
}

/// The value slot of `x * constant(s)` agrees exactly with the value slot
/// of the scalar product `x * s`. (The derivative slots of the two
/// operations coincide only up to the identities `v * 0 == 0`,
/// `0 + d == d` and `s * d == d * s` of the underlying number type, which
/// the scalar profile deliberately does not assume: rounded floating-point
/// arithmetic satisfies them for finite operands but not, for instance,
/// when the value is infinite.)
pub proof fn lemma_mul_by_constant_value<F: Scalar>(a: Seq<F>, s: F, ndiffs: nat)
    requires
        a.len() == ndiffs + 1,
    ensures
        mul_seq(a, constant_seq(s, ndiffs))[0] == mul_scalar_seq(a, s)[0],
{
}

} // verus!
