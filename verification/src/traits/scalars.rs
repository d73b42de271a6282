//! The capability profile a number type must offer to serve as the scalar
//! of a dual number.
//!
//! The crate never fixes the scalar to a concrete machine type: every
//! operation a dual number performs on its slots is routed through this
//! trait, and every contract in the crate speaks of the trait's
//! specification-level names (`add_sp`, `mul_sp`, ...). An embedding
//! program supplies the implementation — typically a thin wrapper around an
//! IEEE-754 floating-point type, whose arithmetic, comparisons and
//! transcendental functions are exactly the operations required here. The
//! verified code is then correct for *every* implementation that honours
//! the contracts below; what remains trusted is only that the chosen
//! number type honours them.

use vstd::prelude::*;

verus! {

/// What a type must provide to be used as the scalar of a dual number:
/// arithmetic, negation, absolute value, ordering, equality, the
/// exponential family (`exp`, `exp2`, `ln`, `powf`) and the constants
/// zero, one and ln(2).
///
/// Each executable operation is pinned to a specification-level name
/// (`add` returns exactly `add_sp` of its arguments, and so on), so that
/// contracts over dual numbers can state slot by slot which scalar
/// computation produced each result. The specification names are abstract:
/// nothing here assumes commutativity, associativity or exactness of the
/// arithmetic — deliberately so, since rounded floating-point arithmetic
/// enjoys none of those. The one algebraic law demanded of every
/// implementation is that negation is an involution
/// ([`Scalar::neg_involutive`]), which IEEE-754 negation (a sign-bit flip)
/// satisfies exactly.
pub trait Scalar: Sized + Copy {
    /// The sum of `self` and `o`, as the implementation computes it.
    spec fn add_sp(self, o: Self) -> Self;

    /// The difference `self - o`, as the implementation computes it.
    spec fn sub_sp(self, o: Self) -> Self;

    /// The product of `self` and `o`, as the implementation computes it.
    spec fn mul_sp(self, o: Self) -> Self;

    /// The quotient `self / o`, as the implementation computes it.
    spec fn div_sp(self, o: Self) -> Self;

    /// The negation of `self`.
    spec fn neg_sp(self) -> Self;

    /// The absolute value of `self`.
    spec fn abs_sp(self) -> Self;

    /// The exponential e^`self`.
    spec fn exp_sp(self) -> Self;

    /// The base-two exponential 2^`self`.
    spec fn exp2_sp(self) -> Self;

    /// The natural logarithm of `self`.
    spec fn ln_sp(self) -> Self;

    /// `self` raised to the power `e`.
    spec fn powf_sp(self, e: Self) -> Self;

    /// Whether `self <= o` in the implementation's ordering.
    spec fn le_sp(self, o: Self) -> bool;

    /// Whether `self < o` in the implementation's ordering.
    spec fn lt_sp(self, o: Self) -> bool;

    /// Whether `self` and `o` are equal as numbers. For floating-point
    /// implementations this is the numeric equality of the type (under
    /// which a negative and a positive zero coincide), not bitwise
    /// identity.
    spec fn eq_sp(self, o: Self) -> bool;

    /// The additive identity.
    spec fn zero_sp() -> Self;

    /// The multiplicative identity.
    spec fn one_sp() -> Self;

    /// The natural logarithm of two.
    spec fn ln2_sp() -> Self;

    /// Negation undoes itself exactly. Every implementation must uphold
    /// this; for IEEE-754 types negation only flips the sign bit, so the
    /// law holds bit for bit, NaN included.
    proof fn neg_involutive(a: Self)
        ensures
            a.neg_sp().neg_sp() == a,
    ;

    fn add(self, o: Self) -> (r: Self)
        ensures
            r == self.add_sp(o),
    ;

    fn sub(self, o: Self) -> (r: Self)
        ensures
            r == self.sub_sp(o),
    ;

    fn mul(self, o: Self) -> (r: Self)
        ensures
            r == self.mul_sp(o),
    ;

    fn div(self, o: Self) -> (r: Self)
        ensures
            r == self.div_sp(o),
    ;

    fn neg(self) -> (r: Self)
        ensures
            r == self.neg_sp(),
    ;

    fn abs(self) -> (r: Self)
        ensures
            r == self.abs_sp(),
    ;

    fn exp(self) -> (r: Self)
        ensures
            r == self.exp_sp(),
    ;

    fn exp2(self) -> (r: Self)
        ensures
            r == self.exp2_sp(),
    ;

    fn ln(self) -> (r: Self)
        ensures
            r == self.ln_sp(),
    ;

    fn powf(self, e: Self) -> (r: Self)
        ensures
            r == self.powf_sp(e),
    ;

    fn le(self, o: Self) -> (r: bool)
        ensures
            r == self.le_sp(o),
    ;

    fn lt(self, o: Self) -> (r: bool)
        ensures
            r == self.lt_sp(o),
    ;

    fn eq_val(self, o: Self) -> (r: bool)
        ensures
            r == self.eq_sp(o),
    ;

    fn zero() -> (r: Self)
        ensures
            r == Self::zero_sp(),
    ;

    fn one() -> (r: Self)
        ensures
            r == Self::one_sp(),
    ;

    fn ln_2() -> (r: Self)
        ensures
            r == Self::ln2_sp(),
    ;
}

} // verus!
