//! Forward-mode automatic differentiation with dual numbers.
//!
//! A dual number pairs a value with a fixed-size vector of partial
//! derivatives with respect to a set of tracked independent variables, and
//! every arithmetic or transcendental operation propagates the derivatives
//! alongside the value by the usual calculus rules (sum, product, quotient,
//! power, exponential and logarithm rules). Evaluating an expression over
//! dual numbers seeded with the standard basis therefore yields the value
//! and the whole gradient in one forward pass.
//!
//! A dual number's canonical content is a flat sequence of `n + 1` scalars:
//! slot 0 holds the value, slots `1..=n` hold the derivatives with respect
//! to variables `1..=n`, in a fixed, caller-defined order. The scalar type
//! is abstract (see [`traits::scalars::Scalar`]); the container is any type
//! with the read capability, and operations that write demand the write
//! capability, selected statically by the ownership-mode markers of
//! [`owning_markers`].

use core::marker::PhantomData;

use vstd::prelude::*;

pub mod generate_duals;
pub mod instanciations;
pub mod laws;
pub mod owning_markers;
pub mod traits;

pub mod impl_ops_dual;
pub mod impl_ops_scalar_rhs;

pub use owning_markers::CompatibleWith;
pub use owning_markers::OwningMode;
pub use owning_markers::RO;
pub use owning_markers::RW;
use traits::ROAble;
use traits::RWAble;
use traits::Scalar;
use traits::ToOwning;
use traits::ToView;

verus! {

/// The content of a constant dual number: the value in slot 0 and the
/// additive identity in every derivative slot.
pub open spec fn constant_seq<F: Scalar>(value: F, ndiffs: nat) -> Seq<F> {
    Seq::new(
        (ndiffs + 1) as nat,
        |i: int| if i == 0 { value } else { F::zero_sp() },
    )
}

/// Elementwise negation of a dual number's content: the chain rule for
/// `-x` negates the value and every derivative.
pub open spec fn neg_seq<F: Scalar>(a: Seq<F>) -> Seq<F> {
    Seq::new(a.len(), |i: int| a[i].neg_sp())
}

/// The content after the absolute-value operation: when the value is
/// negative every slot is negated (the derivative of `|x|` is `-1` there);
/// otherwise, and in particular at zero, the content is returned unchanged
/// (the positive branch, by convention — the true derivative is undefined
/// at zero).
pub open spec fn abs_seq<F: Scalar>(a: Seq<F>) -> Seq<F> {
    if a[0].lt_sp(F::zero_sp()) {
        neg_seq(a)
    } else {
        a
    }
}

/// The content after every derivative slot has been multiplied by `c`,
/// the value slot staying as it is.
pub open spec fn scale_diffs_seq<F: Scalar>(a: Seq<F>, c: F) -> Seq<F> {
    Seq::new(a.len(), |i: int| if i == 0 { a[0] } else { a[i].mul_sp(c) })
}

/// The content after every derivative slot has been divided by `c`, the
/// value slot staying as it is.
pub open spec fn div_diffs_seq<F: Scalar>(a: Seq<F>, c: F) -> Seq<F> {
    Seq::new(a.len(), |i: int| if i == 0 { a[0] } else { a[i].div_sp(c) })
}

/// Elementwise closeness: every slot of `a` is within `atol` of the
/// corresponding slot of `b`, distance being measured as the absolute
/// value of the scalar difference.
pub open spec fn close_seq<F: Scalar>(a: Seq<F>, b: Seq<F>, atol: F) -> bool {
    forall|i: int| 0 <= i < a.len() ==> a[i].sub_sp(b[i]).abs_sp().le_sp(atol)
}

/// The content of e^x: the value becomes e^v and, by the chain rule,
/// every derivative is multiplied by e^v.
pub open spec fn exp_seq<F: Scalar>(a: Seq<F>) -> Seq<F> {
    Seq::new(
        a.len(),
        |i: int| if i == 0 { a[0].exp_sp() } else { a[i].mul_sp(a[0].exp_sp()) },
    )
}

/// The content of 2^x: the value becomes 2^v and every derivative is
/// multiplied by ln(2) * 2^v.
pub open spec fn exp2_seq<F: Scalar>(a: Seq<F>) -> Seq<F> {
    Seq::new(
        a.len(),
        |i: int| if i == 0 {
            a[0].exp2_sp()
        } else {
            a[i].mul_sp(F::ln2_sp().mul_sp(a[0].exp2_sp()))
        },
    )
}

/// The content of base^x: the value becomes base^v and every derivative
/// is multiplied by ln(base) * base^v.
pub open spec fn exp_base_seq<F: Scalar>(a: Seq<F>, base: F) -> Seq<F> {
    Seq::new(
        a.len(),
        |i: int| if i == 0 {
            base.powf_sp(a[0])
        } else {
            a[i].mul_sp(base.ln_sp().mul_sp(base.powf_sp(a[0])))
        },
    )
}

/// The content of ln(x): the value becomes ln(v) and every derivative is
/// divided by v.
pub open spec fn ln_seq<F: Scalar>(a: Seq<F>) -> Seq<F> {
    Seq::new(
        a.len(),
        |i: int| if i == 0 { a[0].ln_sp() } else { a[i].div_sp(a[0]) },
    )
}

/// The content of 1/x: the value becomes 1/v and every derivative is
/// multiplied by -1/v².
pub open spec fn inv_seq<F: Scalar>(a: Seq<F>) -> Seq<F> {
    Seq::new(
        a.len(),
        |i: int| if i == 0 {
            F::one_sp().div_sp(a[0])
        } else {
            a[i].mul_sp(F::one_sp().neg_sp().div_sp(a[0].mul_sp(a[0])))
        },
    )
}

/// The content of x^e for a bare exponent: the value becomes v^e and
/// every derivative is multiplied by e * v^(e-1).
pub open spec fn powf_seq<F: Scalar>(a: Seq<F>, e: F) -> Seq<F> {
    Seq::new(
        a.len(),
        |i: int| if i == 0 {
            a[0].powf_sp(e)
        } else {
            a[i].mul_sp(e.mul_sp(a[0].powf_sp(e.sub_sp(F::one_sp()))))
        },
    )
}

/// The content of x^y for a dual exponent, by the general power rule for
/// f^g. When the base's value equals zero the result is forced to zero in
/// the value and in every derivative, so that no ill-defined `0 * ln(0)`
/// term leaks into the derivatives; otherwise the value becomes v^ve and
/// derivative i becomes v^(ve-1) * (v * de_i * ln(v) + ve * d_i).
pub open spec fn powdual_seq<F: Scalar>(a: Seq<F>, b: Seq<F>) -> Seq<F> {
    if a[0].eq_sp(F::zero_sp()) {
        Seq::new(a.len(), |i: int| if i == 0 { a[0] } else { F::zero_sp() })
    } else {
        Seq::new(
            a.len(),
            |i: int| if i == 0 {
                a[0].powf_sp(b[0])
            } else {
                a[0].powf_sp(b[0].sub_sp(F::one_sp())).mul_sp(
                    a[0].mul_sp(b[i]).mul_sp(a[0].ln_sp()).add_sp(b[0].mul_sp(a[i])),
                )
            },
        )
    }
}

/// The dual-number type: a value together with its partial derivatives,
/// stored flat in a backing container.
///
/// `T` is the container (owned buffer, fixed-size array or borrowed
/// slice), `M` the ownership-mode marker ([`RO`] or [`RW`]) stating which
/// capability the container must provide, and `F` the scalar type.
#[derive(Debug, Copy)]
pub struct Dual<T, M, F>
    where
        M: OwningMode,
        T: CompatibleWith<M, F>,
        F: Scalar,
{
    pub(crate) content: T,
    om: PhantomData<M>,
    ph_f: PhantomData<F>,
}

impl<T, M, F> Dual<T, M, F>
    where
        M: OwningMode,
        T: ROAble<F>,
        T: CompatibleWith<M, F>,
        F: Scalar,
{
    /// The scalar sequence this dual number holds: slot 0 is the value,
    /// the remaining slots are the derivatives.
    pub closed spec fn sq(&self) -> Seq<F> {
        self.content.sq()
    }

    /// A dual number is well formed when it has a value slot; the
    /// derivative count `ndiffs` is then the length minus one.
    pub open spec fn wf(&self) -> bool {
        self.sq().len() >= 1
    }

    /// The derivative count, at the specification level.
    pub open spec fn spec_ndiffs(&self) -> nat {
        (self.sq().len() - 1) as nat
    }

    /// Wraps an existing container as a dual number. Slot 0 of the
    /// container is taken as the value and the remaining slots as the
    /// derivatives; nothing is copied and nothing is validated beyond the
    /// presence of the value slot.
    pub fn from(content: T) -> (r: Self)
        requires
            content.sq().len() >= 1,
        ensures
            r.sq() == content.sq(),
            r.wf(),
    {
        Dual { content, om: PhantomData, ph_f: PhantomData }
    }

    /// The content as a read-only slice: the value followed by the
    /// derivatives.
    pub fn as_slice(&self) -> (r: &[F])
        ensures
            r@ == self.sq(),
    {
        self.content.ro()
    }

    /// The value of the dual number.
    pub fn val(&self) -> (r: F)
        requires
            self.wf(),
        ensures
            r == self.sq()[0],
    {
        self.as_slice()[0]
    }

    /// The derivatives, as a read-only slice.
    pub fn diffs(&self) -> (r: &[F])
        requires
            self.wf(),
        ensures
            r@ == self.sq().subrange(1, self.sq().len() as int),
    {
        let s = self.as_slice();
        &s[1..s.len()]
    }

    /// The number of tracked derivatives.
    pub fn ndiffs(&self) -> (n: usize)
        requires
            self.wf(),
        ensures
            n == self.spec_ndiffs(),
    {
        self.as_slice().len() - 1
    }

    /// Copies the content into a freshly owned, read-write dual number.
    pub fn to_owning(&self) -> (r: Dual<T::Owning, RW, F>)
        where
            T: ToOwning<F>,
        requires
            self.wf(),
        ensures
            r.sq() == self.sq(),
            r.wf(),
    {
        Dual::from(self.content.to_owning())
    }

    /// A non-owning, read-only dual number viewing the same content.
    pub fn view<'a>(&'a self) -> (r: Dual<&'a [F], RO, F>)
        where
            T: ToView<F>,
        requires
            self.wf(),
        ensures
            r.sq() == self.sq(),
            r.wf(),
    {
        Dual::from(self.content.to_view())
    }

    /// Whether the two dual numbers agree, slot by slot, within the
    /// absolute tolerance `atol`: the value and every derivative must be
    /// within `atol` of their counterpart. Both operands must track the
    /// same number of derivatives.
    pub fn is_close<S, M2>(&self, b: &Dual<S, M2, F>, atol: F) -> (r: bool)
        where
            M2: OwningMode,
            S: ROAble<F>,
            S: CompatibleWith<M2, F>,
        requires
            self.wf(),
            b.wf(),
            self.spec_ndiffs() == b.spec_ndiffs(),
        ensures
            r == close_seq(self.sq(), b.sq(), atol),
    {
        let xs = self.as_slice();
        let ys = b.as_slice();
        let n = xs.len();
        let mut i: usize = 0;
        while i < n
            invariant
                i <= n,
                n == xs@.len(),
                n == ys@.len(),
                xs@ == self.sq(),
                ys@ == b.sq(),
                forall|j: int| 0 <= j < i ==> xs@[j].sub_sp(ys@[j]).abs_sp().le_sp(atol),
            decreases n - i,
        {
            if !xs[i].sub(ys[i]).abs().le(atol) {
                return false;
            }
            i = i + 1;
        }
        true
    }
}

impl<T, M, F> Clone for Dual<T, M, F>
    where
        M: OwningMode,
        T: CompatibleWith<M, F>,
        T: Clone,
        F: Scalar,
{
    /// Clones the backing container. Nothing is stated about the clone's
    /// content here, since nothing is known about `clone` on an arbitrary
    /// container type; for the containers of this crate the clone holds
    /// the same scalars.
    fn clone(&self) -> Self {
        Dual { content: self.content.clone(), om: PhantomData, ph_f: PhantomData }
    }
}

impl<T, M, F> PartialEq for Dual<T, M, F>
    where
        M: OwningMode,
        T: ROAble<F>,
        T: CompatibleWith<M, F>,
        F: Scalar,
{
    /// Two dual numbers are equal when they hold the same number of slots
    /// and the scalars agree, slot by slot, under the scalar's own
    /// equality.
    fn eq(&self, other: &Self) -> (r: bool) {
        let a = self.as_slice();
        let b = other.as_slice();
        if a.len() != b.len() {
            return false;
        }
        let n = a.len();
        let mut i: usize = 0;
        while i < n
            invariant
                i <= n,
                n == a@.len(),
                n == b@.len(),
                a@ == self.sq(),
                b@ == other.sq(),
                forall|j: int| 0 <= j < i ==> a@[j].eq_sp(b@[j]),
            decreases n - i,
        {
            if !a[i].eq_val(b[i]) {
                return false;
            }
            i = i + 1;
        }
        true
    }
}

impl<T, M, F> vstd::std_specs::cmp::PartialEqSpecImpl for Dual<T, M, F>
    where
        M: OwningMode,
        T: ROAble<F>,
        T: CompatibleWith<M, F>,
        F: Scalar,
{
    open spec fn obeys_eq_spec() -> bool {
        true
    }

    open spec fn eq_spec(&self, other: &Self) -> bool {
        &&& self.sq().len() == other.sq().len()
        &&& forall|i: int| 0 <= i < self.sq().len() ==> self.sq()[i].eq_sp(other.sq()[i])
    }
}

impl<F> Dual<Vec<F>, RW, F>
    where
        F: Scalar,
{
    /// Builds a constant dual number backed by a growable buffer: the
    /// value is `value` and all `ndiffs` derivatives are zero, since a
    /// constant depends on no tracked variable.
    pub fn constant(value: F, ndiffs: usize) -> (r: Self)
        requires
            ndiffs < usize::MAX,
        ensures
            r.sq() == constant_seq(value, ndiffs as nat),
            r.wf(),
            r.spec_ndiffs() == ndiffs,
    {
        let mut content: Vec<F> = Vec::new();
        content.push(value);
        let mut i: usize = 0;
        while i < ndiffs
            invariant
                i <= ndiffs,
                content@.len() == i + 1,
                content@[0] == value,
                forall|j: int| 1 <= j <= i ==> content@[j] == F::zero_sp(),
            decreases ndiffs - i,
        {
            content.push(F::zero());
            i = i + 1;
        }
        proof {
            assert(content@ =~= constant_seq(value, ndiffs as nat));
        }
        Dual::from(content)
    }

    /// Mutable access to the value slot.
    pub fn val_mut(&mut self) -> (r: &mut F)
        requires
            old(self).wf(),
        ensures
            *r == old(self).sq()[0],
            final(self).sq() == old(self).sq().update(0, *final(r)),
    {
        &mut self.content[0]
    }

    /// Mutable access to derivative `i` (slot `i + 1` of the content).
    pub fn diffs_mut(&mut self, i: usize) -> (r: &mut F)
        requires
            old(self).wf(),
            i < old(self).spec_ndiffs(),
        ensures
            *r == old(self).sq()[i + 1],
            final(self).sq() == old(self).sq().update(i + 1, *final(r)),
    {
        let n = self.ndiffs();
        assert(i < n);
        &mut self.content[i + 1]
    }
}

impl<F, const N: usize> Dual<[F; N], RW, F>
    where
        F: Scalar,
{
    /// Builds a constant dual number backed by a fixed-size array; the
    /// array must have exactly one slot for the value and one per
    /// derivative.
    pub fn constant(value: F, ndiffs: usize) -> (r: Self)
        requires
            ndiffs + 1 == N,
        ensures
            r.sq() == constant_seq(value, ndiffs as nat),
            r.wf(),
            r.spec_ndiffs() == ndiffs,
    {
        let z = F::zero();
        let mut content: [F; N] = [z; N];
        content[0] = value;
        proof {
            assert(content@ =~= constant_seq(value, ndiffs as nat));
        }
        Dual::from(content)
    }
}

impl<T, F> Dual<T, RW, F>
    where
        T: RWAble<F>,
        F: Scalar,
{
    /// Overwrites the value slot.
    pub fn set_val(&mut self, v: F)
        requires
            old(self).wf(),
        ensures
            final(self).sq() == old(self).sq().update(0, v),
    {
        self.content.rw(0, v);
    }

    /// Overwrites derivative `i` (slot `i + 1` of the content).
    pub fn set_diff(&mut self, i: usize, v: F)
        requires
            old(self).wf(),
            i < old(self).spec_ndiffs(),
        ensures
            final(self).sq() == old(self).sq().update(i + 1, v),
    {
        let n = self.ndiffs();
        assert(i < n);
        self.content.rw(i + 1, v);
    }

    /// Multiplies every derivative slot by `c`, leaving the value slot
    /// untouched.
    fn scale_diffs(&mut self, c: F)
        requires
            old(self).wf(),
        ensures
            final(self).sq() == scale_diffs_seq(old(self).sq(), c),
    {
        let ghost orig = self.sq();
        let n = self.ndiffs();
        let mut i: usize = 0;
        while i < n
            invariant
                i <= n,
                self.sq().len() == orig.len(),
                n + 1 == orig.len(),
                forall|j: int| 1 <= j <= i ==> self.sq()[j] == orig[j].mul_sp(c),
                forall|j: int| 0 <= j < orig.len() && !(1 <= j <= i) ==> self.sq()[j] == orig[j],
            decreases n - i,
        {
            let d = self.as_slice()[i + 1];
            self.set_diff(i, d.mul(c));
            i = i + 1;
        }
        proof {
            assert(self.sq() =~= scale_diffs_seq(orig, c));
        }
    }

    /// Divides every derivative slot by `c`, leaving the value slot
    /// untouched.
    fn div_diffs(&mut self, c: F)
        requires
            old(self).wf(),
        ensures
            final(self).sq() == div_diffs_seq(old(self).sq(), c),
    {
        let ghost orig = self.sq();
        let n = self.ndiffs();
        let mut i: usize = 0;
        while i < n
            invariant
                i <= n,
                self.sq().len() == orig.len(),
                n + 1 == orig.len(),
                forall|j: int| 1 <= j <= i ==> self.sq()[j] == orig[j].div_sp(c),
                forall|j: int| 0 <= j < orig.len() && !(1 <= j <= i) ==> self.sq()[j] == orig[j],
            decreases n - i,
        {
            let d = self.as_slice()[i + 1];
            self.set_diff(i, d.div(c));
            i = i + 1;
        }
        proof {
            assert(self.sq() =~= div_diffs_seq(orig, c));
        }
    }

    /// Negates the value and every derivative: the derivative of `-x` is
    /// the negated derivative of `x`.
    pub fn neg(self) -> (r: Self)
        requires
            self.wf(),
        ensures
            r.sq() == neg_seq(self.sq()),
            r.wf(),
    {
        let mut s = self;
        let ghost orig = s.sq();
        let n = s.as_slice().len();
        let mut i: usize = 0;
        while i < n
            invariant
                i <= n,
                s.sq().len() == orig.len(),
                n == orig.len(),
                forall|j: int| 0 <= j < i ==> s.sq()[j] == orig[j].neg_sp(),
                forall|j: int| i <= j < orig.len() ==> s.sq()[j] == orig[j],
            decreases n - i,
        {
            let d = s.as_slice()[i];
            s.content.rw(i, d.neg());
            i = i + 1;
        }
        proof {
            assert(s.sq() =~= neg_seq(orig));
        }
        s
    }

    /// The absolute value: when the value is negative, every slot is
    /// negated; otherwise — including at a value of exactly zero — the
    /// dual number is returned unchanged (the positive branch, by
    /// convention, since the derivative of `|x|` is undefined at zero).
    pub fn abs(self) -> (r: Self)
        requires
            self.wf(),
        ensures
            r.sq() == abs_seq(self.sq()),
            r.wf(),
    {
        if self.val().lt(F::zero()) {
            self.neg()
        } else {
            self
        }
    }

    /// e^self: the value becomes e^v and, by the chain rule, every
    /// derivative is multiplied by e^v.
    pub fn exp(self) -> (r: Self)
        requires
            self.wf(),
        ensures
            r.sq() == exp_seq(self.sq()),
            r.wf(),
    {
        let mut s = self;
        let ghost orig = s.sq();
        let expval = s.val().exp();
        s.set_val(expval);
        s.scale_diffs(expval);
        proof {
            assert(s.sq() =~= exp_seq(orig));
        }
        s
    }

    /// 2^self: the value becomes 2^v and every derivative is multiplied
    /// by ln(2) * 2^v.
    pub fn exp2(self) -> (r: Self)
        requires
            self.wf(),
        ensures
            r.sq() == exp2_seq(self.sq()),
            r.wf(),
    {
        let mut s = self;
        let ghost orig = s.sq();
        let expval = s.val().exp2();
        s.set_val(expval);
        s.scale_diffs(F::ln_2().mul(expval));
        proof {
            assert(s.sq() =~= exp2_seq(orig));
        }
        s
    }

    /// base^self: the value becomes base^v and every derivative is
    /// multiplied by ln(base) * base^v. Meaningful for a positive base
    /// only, as the scalar's logarithm is involved.
    pub fn exp_base(self, base: F) -> (r: Self)
        requires
            self.wf(),
        ensures
            r.sq() == exp_base_seq(self.sq(), base),
            r.wf(),
    {
        let mut s = self;
        let ghost orig = s.sq();
        let expval = base.powf(s.val());
        s.set_val(expval);
        s.scale_diffs(base.ln().mul(expval));
        proof {
            assert(s.sq() =~= exp_base_seq(orig, base));
        }
        s
    }

    /// ln(self): the value becomes ln(v) and every derivative is divided
    /// by v.
    pub fn ln(self) -> (r: Self)
        requires
            self.wf(),
        ensures
            r.sq() == ln_seq(self.sq()),
            r.wf(),
    {
        let mut s = self;
        let ghost orig = s.sq();
        let val = s.val();
        s.set_val(val.ln());
        s.div_diffs(val);
        proof {
            assert(s.sq() =~= ln_seq(orig));
        }
        s
    }

    /// 1/self: the value becomes 1/v and every derivative is multiplied
    /// by -1/v².
    pub fn inv(self) -> (r: Self)
        requires
            self.wf(),
        ensures
            r.sq() == inv_seq(self.sq()),
            r.wf(),
    {
        let mut s = self;
        let ghost orig = s.sq();
        let vs = s.val();
        let svs = vs.mul(vs);
        s.set_val(F::one().div(vs));
        s.scale_diffs(F::one().neg().div(svs));
        proof {
            assert(s.sq() =~= inv_seq(orig));
        }
        s
    }

    /// self^e for a bare exponent: the value becomes v^e and every
    /// derivative is multiplied by e * v^(e-1).
    pub fn powf(self, e: F) -> (r: Self)
        requires
            self.wf(),
        ensures
            r.sq() == powf_seq(self.sq(), e),
            r.wf(),
    {
        let mut s = self;
        let ghost orig = s.sq();
        let vs = s.val();
        s.set_val(vs.powf(e));
        s.scale_diffs(e.mul(vs.powf(e.sub(F::one()))));
        proof {
            assert(s.sq() =~= powf_seq(orig, e));
        }
        s
    }

    /// self^exp for a dual exponent, by the general power rule for f^g.
    /// When the base's value equals zero, every derivative is forced to
    /// zero and the (zero) value is kept, so that no ill-defined
    /// `0 * ln(0)` term leaks into the derivatives. Both operands must
    /// track the same number of derivatives.
    pub fn powdual<S, M2>(self, exp: Dual<S, M2, F>) -> (r: Self)
        where
            M2: OwningMode,
            S: ROAble<F>,
            S: CompatibleWith<M2, F>,
        requires
            self.wf(),
            exp.wf(),
            self.spec_ndiffs() == exp.spec_ndiffs(),
        ensures
            r.sq() == powdual_seq(self.sq(), exp.sq()),
            r.wf(),
    {
        let mut s = self;
        let ghost orig = s.sq();
        let vs = s.val();
        if vs.eq_val(F::zero()) {
            let n = s.ndiffs();
            let mut i: usize = 0;
            while i < n
                invariant
                    i <= n,
                    s.sq().len() == orig.len(),
                    n + 1 == orig.len(),
                    s.sq()[0] == orig[0],
                    forall|j: int| 1 <= j <= i ==> s.sq()[j] == F::zero_sp(),
                    forall|j: int| i < j < orig.len() ==> s.sq()[j] == orig[j],
                decreases n - i,
            {
                s.set_diff(i, F::zero());
                i = i + 1;
            }
            proof {
                assert(s.sq() =~= powdual_seq(orig, exp.sq()));
            }
            return s;
        }
        let ve = exp.val();
        s.set_val(vs.powf(ve));
        let n = s.ndiffs();
        let mut i: usize = 0;
        while i < n
            invariant
                i <= n,
                s.sq().len() == orig.len(),
                n + 1 == orig.len(),
                exp.sq().len() == orig.len(),
                vs == orig[0],
                ve == exp.sq()[0],
                !vs.eq_sp(F::zero_sp()),
                s.sq()[0] == orig[0].powf_sp(exp.sq()[0]),
                forall|j: int| 1 <= j <= i ==> s.sq()[j] == orig[0].powf_sp(
                    exp.sq()[0].sub_sp(F::one_sp()),
                ).mul_sp(
                    orig[0].mul_sp(exp.sq()[j]).mul_sp(orig[0].ln_sp()).add_sp(
                        exp.sq()[0].mul_sp(orig[j]),
                    ),
                ),
                forall|j: int| i < j < orig.len() ==> s.sq()[j] == orig[j],
            decreases n - i,
        {
            let ds = s.as_slice()[i + 1];
            let de = exp.as_slice()[i + 1];
            let nd = vs.powf(ve.sub(F::one())).mul(vs.mul(de).mul(vs.ln()).add(ve.mul(ds)));
            s.set_diff(i, nd);
            i = i + 1;
        }
        proof {
            assert(s.sq() =~= powdual_seq(orig, exp.sq()));
        }
        s
    }
}

} // verus!
