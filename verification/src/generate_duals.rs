//! Declaring a batch of independent variables: one dual number per
//! variable, each seeded with the standard-basis derivative vector, so
//! that evaluating an expression over the results yields the value and
//! the full gradient in one pass.

use vstd::prelude::*;

use crate::instanciations::Owning;
use crate::traits::Scalar;

verus! {

/// The content of the dual number that seeds variable `k` out of `n`: the
/// variable's value, a derivative of one with respect to itself, and a
/// derivative of zero with respect to every other variable.
pub open spec fn basis_seq<F: Scalar>(value: F, n: nat, k: nat) -> Seq<F> {
    Seq::new(
        (n + 1) as nat,
        |i: int| if i == 0 {
            value
        } else if i == k + 1 {
            F::one_sp()
        } else {
            F::zero_sp()
        },
    )
}

/// Builds one dual number per entry of `values`: the dual number for
/// variable `k` holds the value `values[k]` and the standard-basis
/// derivative vector with a one at index `k`, so that the derivative of
/// any result with respect to variable `k` is found at that same index.
pub fn generate_duals<F: Scalar>(values: &[F]) -> (r: Vec<Owning<F>>)
    requires
        values@.len() < usize::MAX,
    ensures
        r@.len() == values@.len(),
        forall|k: int|
            0 <= k < r@.len() ==> r@[k].sq() == basis_seq(
                values@[k],
                values@.len(),
                k as nat,
            ),
{
    let n = values.len();
    let mut r: Vec<Owning<F>> = Vec::new();
    let mut k: usize = 0;
    while k < n
        invariant
            k <= n,
            n == values@.len(),
            n < usize::MAX,
            r@.len() == k,
            forall|j: int| 0 <= j < k ==> r@[j].sq() == basis_seq(values@[j], n as nat, j as nat),
        decreases n - k,
    {
        let mut d = Owning::<F>::constant(values[k], n);
        d.set_diff(k, F::one());
        proof {
            assert(d.sq() =~= basis_seq(values@[k as int], n as nat, k as nat));
        }
        r.push(d);
        k = k + 1;
    }
    r
}

} // verus!
