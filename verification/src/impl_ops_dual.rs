//! Binary operations between two dual numbers.
//!
//! Every binary operation demands that both operands track the same number
//! of derivatives: slot `i` of one operand and slot `i` of the other must
//! refer to the same independent variable for the result to mean anything.
//! The in-place forms (`*_assign`) overwrite the left operand's container,
//! which therefore needs the write capability; `sub_into` and `div_into`
//! instead write into an owned right operand, so that an expression with a
//! read-only left operand can still reuse the right operand's storage. The
//! `try_*` forms take any pair of operands and report, instead of
//! requiring, whether the derivative counts matched; on a mismatch they
//! leave the left operand untouched.

use vstd::prelude::*;

use crate::owning_markers::CompatibleWith;
use crate::owning_markers::OwningMode;
use crate::owning_markers::RW;
use crate::traits::ROAble;
use crate::traits::RWAble;
use crate::traits::Scalar;
use crate::Dual;

verus! {

/// The content of a sum of dual numbers: slotwise scalar addition — the
/// value slots add, and by linearity so does every derivative slot.
pub open spec fn add_seq<F: Scalar>(a: Seq<F>, b: Seq<F>) -> Seq<F> {
    Seq::new(a.len(), |i: int| a[i].add_sp(b[i]))
}

/// The content of a difference of dual numbers: slotwise scalar
/// subtraction.
pub open spec fn sub_seq<F: Scalar>(a: Seq<F>, b: Seq<F>) -> Seq<F> {
    Seq::new(a.len(), |i: int| a[i].sub_sp(b[i]))
}

/// The content of a product of dual numbers: the values multiply, and by
/// the product rule derivative i becomes v1 * d2_i + v2 * d1_i.
pub open spec fn mul_seq<F: Scalar>(a: Seq<F>, b: Seq<F>) -> Seq<F> {
    Seq::new(
        a.len(),
        |i: int| if i == 0 {
            a[0].mul_sp(b[0])
        } else {
            a[0].mul_sp(b[i]).add_sp(b[0].mul_sp(a[i]))
        },
    )
}

/// The content of a quotient of dual numbers: the values divide, and by
/// the quotient rule derivative i becomes (d1_i - d2_i * v1 / v2) / v2.
pub open spec fn div_seq<F: Scalar>(a: Seq<F>, b: Seq<F>) -> Seq<F> {
    Seq::new(
        a.len(),
        |i: int| if i == 0 {
            a[0].div_sp(b[0])
        } else {
            a[i].sub_sp(b[i].mul_sp(a[0]).div_sp(b[0])).div_sp(b[0])
        },
    )
}

impl<L, F> Dual<L, RW, F>
    where
        L: RWAble<F>,
        F: Scalar,
{
    /// Adds `rhs` into `self`, slot by slot.
    pub fn add_assign<R, M2>(&mut self, rhs: &Dual<R, M2, F>)
        where
            M2: OwningMode,
            R: ROAble<F>,
            R: CompatibleWith<M2, F>,
        requires
            old(self).wf(),
            rhs.wf(),
            old(self).spec_ndiffs() == rhs.spec_ndiffs(),
        ensures
            final(self).sq() == add_seq(old(self).sq(), rhs.sq()),
    {
        let ghost orig = self.sq();
        let n = self.as_slice().len();
        let mut i: usize = 0;
        while i < n
            invariant
                i <= n,
                n == orig.len(),
                self.sq().len() == orig.len(),
                rhs.sq().len() == orig.len(),
                forall|j: int| 0 <= j < i ==> self.sq()[j] == orig[j].add_sp(rhs.sq()[j]),
                forall|j: int| i <= j < orig.len() ==> self.sq()[j] == orig[j],
            decreases n - i,
        {
            let a = self.as_slice()[i];
            let b = rhs.as_slice()[i];
            self.content.rw(i, a.add(b));
            i = i + 1;
        }
        proof {
            assert(self.sq() =~= add_seq(orig, rhs.sq()));
        }
    }

    /// Subtracts `rhs` from `self`, slot by slot.
    pub fn sub_assign<R, M2>(&mut self, rhs: &Dual<R, M2, F>)
        where
            M2: OwningMode,
            R: ROAble<F>,
            R: CompatibleWith<M2, F>,
        requires
            old(self).wf(),
            rhs.wf(),
            old(self).spec_ndiffs() == rhs.spec_ndiffs(),
        ensures
            final(self).sq() == sub_seq(old(self).sq(), rhs.sq()),
    {
        let ghost orig = self.sq();
        let n = self.as_slice().len();
        let mut i: usize = 0;
        while i < n
            invariant
                i <= n,
                n == orig.len(),
                self.sq().len() == orig.len(),
                rhs.sq().len() == orig.len(),
                forall|j: int| 0 <= j < i ==> self.sq()[j] == orig[j].sub_sp(rhs.sq()[j]),
                forall|j: int| i <= j < orig.len() ==> self.sq()[j] == orig[j],
            decreases n - i,
        {
            let a = self.as_slice()[i];
            let b = rhs.as_slice()[i];
            self.content.rw(i, a.sub(b));
            i = i + 1;
        }
        proof {
            assert(self.sq() =~= sub_seq(orig, rhs.sq()));
        }
    }

    /// Multiplies `self` by `rhs` in place: the values multiply and each
    /// derivative follows the product rule.
    pub fn mul_assign<R, M2>(&mut self, rhs: &Dual<R, M2, F>)
        where
            M2: OwningMode,
            R: ROAble<F>,
            R: CompatibleWith<M2, F>,
        requires
            old(self).wf(),
            rhs.wf(),
            old(self).spec_ndiffs() == rhs.spec_ndiffs(),
        ensures
            final(self).sq() == mul_seq(old(self).sq(), rhs.sq()),
    {
        let ghost orig = self.sq();
        let vs = self.val();
        let vr = rhs.val();
        self.set_val(vs.mul(vr));
        let n = self.ndiffs();
        let mut i: usize = 0;
        while i < n
            invariant
                i <= n,
                n + 1 == orig.len(),
                self.sq().len() == orig.len(),
                rhs.sq().len() == orig.len(),
                vs == orig[0],
                vr == rhs.sq()[0],
                self.sq()[0] == orig[0].mul_sp(rhs.sq()[0]),
                forall|j: int| 1 <= j <= i ==> self.sq()[j] == orig[0].mul_sp(rhs.sq()[j]).add_sp(
                    rhs.sq()[0].mul_sp(orig[j]),
                ),
                forall|j: int| i < j < orig.len() ==> self.sq()[j] == orig[j],
            decreases n - i,
        {
            let ds = self.as_slice()[i + 1];
            let dr = rhs.as_slice()[i + 1];
            self.set_diff(i, vs.mul(dr).add(vr.mul(ds)));
            i = i + 1;
        }
        proof {
            assert(self.sq() =~= mul_seq(orig, rhs.sq()));
        }
    }

    /// Divides `self` by `rhs` in place: the values divide and each
    /// derivative follows the quotient rule.
    pub fn div_assign<R, M2>(&mut self, rhs: &Dual<R, M2, F>)
        where
            M2: OwningMode,
            R: ROAble<F>,
            R: CompatibleWith<M2, F>,
        requires
            old(self).wf(),
            rhs.wf(),
            old(self).spec_ndiffs() == rhs.spec_ndiffs(),
        ensures
            final(self).sq() == div_seq(old(self).sq(), rhs.sq()),
    {
        let ghost orig = self.sq();
        let vs = self.val();
        let vr = rhs.val();
        self.set_val(vs.div(vr));
        let n = self.ndiffs();
        let mut i: usize = 0;
        while i < n
            invariant
                i <= n,
                n + 1 == orig.len(),
                self.sq().len() == orig.len(),
                rhs.sq().len() == orig.len(),
                vs == orig[0],
                vr == rhs.sq()[0],
                self.sq()[0] == orig[0].div_sp(rhs.sq()[0]),
                forall|j: int| 1 <= j <= i ==> self.sq()[j] == orig[j].sub_sp(
                    rhs.sq()[j].mul_sp(orig[0]).div_sp(rhs.sq()[0]),
                ).div_sp(rhs.sq()[0]),
                forall|j: int| i < j < orig.len() ==> self.sq()[j] == orig[j],
            decreases n - i,
        {
            let ds = self.as_slice()[i + 1];
            let dr = rhs.as_slice()[i + 1];
            self.set_diff(i, ds.sub(dr.mul(vs).div(vr)).div(vr));
            i = i + 1;
        }
        proof {
            assert(self.sq() =~= div_seq(orig, rhs.sq()));
        }
    }

    /// The sum of `self` and `rhs`, reusing `self`'s storage.
    pub fn add<R, M2>(self, rhs: &Dual<R, M2, F>) -> (r: Self)
        where
            M2: OwningMode,
            R: ROAble<F>,
            R: CompatibleWith<M2, F>,
        requires
            self.wf(),
            rhs.wf(),
            self.spec_ndiffs() == rhs.spec_ndiffs(),
        ensures
            r.sq() == add_seq(self.sq(), rhs.sq()),
            r.wf(),
    {
        let mut s = self;
        s.add_assign(rhs);
        s
    }

    /// The difference `self - rhs`, reusing `self`'s storage.
    pub fn sub<R, M2>(self, rhs: &Dual<R, M2, F>) -> (r: Self)
        where
            M2: OwningMode,
            R: ROAble<F>,
            R: CompatibleWith<M2, F>,
        requires
            self.wf(),
            rhs.wf(),
            self.spec_ndiffs() == rhs.spec_ndiffs(),
        ensures
            r.sq() == sub_seq(self.sq(), rhs.sq()),
            r.wf(),
    {
        let mut s = self;
        s.sub_assign(rhs);
        s
    }

    /// The product of `self` and `rhs`, reusing `self`'s storage.
    pub fn mul<R, M2>(self, rhs: &Dual<R, M2, F>) -> (r: Self)
        where
            M2: OwningMode,
            R: ROAble<F>,
            R: CompatibleWith<M2, F>,
        requires
            self.wf(),
            rhs.wf(),
            self.spec_ndiffs() == rhs.spec_ndiffs(),
        ensures
            r.sq() == mul_seq(self.sq(), rhs.sq()),
            r.wf(),
    {
        let mut s = self;
        s.mul_assign(rhs);
        s
    }

    /// The quotient `self / rhs`, reusing `self`'s storage.
    pub fn div<R, M2>(self, rhs: &Dual<R, M2, F>) -> (r: Self)
        where
            M2: OwningMode,
            R: ROAble<F>,
            R: CompatibleWith<M2, F>,
        requires
            self.wf(),
            rhs.wf(),
            self.spec_ndiffs() == rhs.spec_ndiffs(),
        ensures
            r.sq() == div_seq(self.sq(), rhs.sq()),
            r.wf(),
    {
        let mut s = self;
        s.div_assign(rhs);
        s
    }

    /// Adds `rhs` into `self`, reporting instead of requiring that the
    /// derivative counts matched; on a mismatch `self` is left untouched.
    pub fn try_add_assign<R, M2>(&mut self, rhs: &Dual<R, M2, F>) -> (ok: bool)
        where
            M2: OwningMode,
            R: ROAble<F>,
            R: CompatibleWith<M2, F>,
        requires
            old(self).wf(),
            rhs.wf(),
        ensures
            ok == (old(self).spec_ndiffs() == rhs.spec_ndiffs()),
            ok ==> final(self).sq() == add_seq(old(self).sq(), rhs.sq()),
            !ok ==> final(self).sq() == old(self).sq(),
    {
        if self.ndiffs() == rhs.ndiffs() {
            self.add_assign(rhs);
            true
        } else {
            false
        }
    }

    /// Subtracts `rhs` from `self`, reporting instead of requiring that
    /// the derivative counts matched; on a mismatch `self` is left
    /// untouched.
    pub fn try_sub_assign<R, M2>(&mut self, rhs: &Dual<R, M2, F>) -> (ok: bool)
        where
            M2: OwningMode,
            R: ROAble<F>,
            R: CompatibleWith<M2, F>,
        requires
            old(self).wf(),
            rhs.wf(),
        ensures
            ok == (old(self).spec_ndiffs() == rhs.spec_ndiffs()),
            ok ==> final(self).sq() == sub_seq(old(self).sq(), rhs.sq()),
            !ok ==> final(self).sq() == old(self).sq(),
    {
        if self.ndiffs() == rhs.ndiffs() {
            self.sub_assign(rhs);
            true
        } else {
            false
        }
    }

    /// Multiplies `self` by `rhs`, reporting instead of requiring that
    /// the derivative counts matched; on a mismatch `self` is left
    /// untouched.
    pub fn try_mul_assign<R, M2>(&mut self, rhs: &Dual<R, M2, F>) -> (ok: bool)
        where
            M2: OwningMode,
            R: ROAble<F>,
            R: CompatibleWith<M2, F>,
        requires
            old(self).wf(),
            rhs.wf(),
        ensures
            ok == (old(self).spec_ndiffs() == rhs.spec_ndiffs()),
            ok ==> final(self).sq() == mul_seq(old(self).sq(), rhs.sq()),
            !ok ==> final(self).sq() == old(self).sq(),
    {
        if self.ndiffs() == rhs.ndiffs() {
            self.mul_assign(rhs);
            true
        } else {
            false
        }
    }

    /// Divides `self` by `rhs`, reporting instead of requiring that the
    /// derivative counts matched; on a mismatch `self` is left untouched.
    pub fn try_div_assign<R, M2>(&mut self, rhs: &Dual<R, M2, F>) -> (ok: bool)
        where
            M2: OwningMode,
            R: ROAble<F>,
            R: CompatibleWith<M2, F>,
        requires
            old(self).wf(),
            rhs.wf(),
        ensures
            ok == (old(self).spec_ndiffs() == rhs.spec_ndiffs()),
            ok ==> final(self).sq() == div_seq(old(self).sq(), rhs.sq()),
            !ok ==> final(self).sq() == old(self).sq(),
    {
        if self.ndiffs() == rhs.ndiffs() {
            self.div_assign(rhs);
            true
        } else {
            false
        }
    }
}

impl<L, M, F> Dual<L, M, F>
    where
        M: OwningMode,
        L: ROAble<F>,
        L: CompatibleWith<M, F>,
        F: Scalar,
{
    /// The difference `self - rhs`, written into the right operand's
    /// storage: useful when the left operand is read-only but the right
    /// one is owned.
    pub fn sub_into<R>(&self, rhs: Dual<R, RW, F>) -> (r: Dual<R, RW, F>)
        where
            R: RWAble<F>,
        requires
            self.wf(),
            rhs.wf(),
            self.spec_ndiffs() == rhs.spec_ndiffs(),
        ensures
            r.sq() == sub_seq(self.sq(), rhs.sq()),
            r.wf(),
    {
        let mut out = rhs;
        let ghost orig = out.sq();
        let n = out.as_slice().len();
        let mut i: usize = 0;
        while i < n
            invariant
                i <= n,
                n == orig.len(),
                out.sq().len() == orig.len(),
                self.sq().len() == orig.len(),
                forall|j: int| 0 <= j < i ==> out.sq()[j] == self.sq()[j].sub_sp(orig[j]),
                forall|j: int| i <= j < orig.len() ==> out.sq()[j] == orig[j],
            decreases n - i,
        {
            let a = self.as_slice()[i];
            let b = out.as_slice()[i];
            out.content.rw(i, a.sub(b));
            i = i + 1;
        }
        proof {
            assert(out.sq() =~= sub_seq(self.sq(), orig));
        }
        out
    }

    /// The quotient `self / rhs`, written into the right operand's
    /// storage: useful when the left operand is read-only but the right
    /// one is owned.
    pub fn div_into<R>(&self, rhs: Dual<R, RW, F>) -> (r: Dual<R, RW, F>)
        where
            R: RWAble<F>,
        requires
            self.wf(),
            rhs.wf(),
            self.spec_ndiffs() == rhs.spec_ndiffs(),
        ensures
            r.sq() == div_seq(self.sq(), rhs.sq()),
            r.wf(),
    {
        let mut out = rhs;
        let ghost orig = out.sq();
        let vs = self.val();
        let vr = out.val();
        out.set_val(vs.div(vr));
        let n = out.ndiffs();
        let mut i: usize = 0;
        while i < n
            invariant
                i <= n,
                n + 1 == orig.len(),
                out.sq().len() == orig.len(),
                self.sq().len() == orig.len(),
                vs == self.sq()[0],
                vr == orig[0],
                out.sq()[0] == self.sq()[0].div_sp(orig[0]),
                forall|j: int| 1 <= j <= i ==> out.sq()[j] == self.sq()[j].sub_sp(
                    orig[j].mul_sp(self.sq()[0]).div_sp(orig[0]),
                ).div_sp(orig[0]),
                forall|j: int| i < j < orig.len() ==> out.sq()[j] == orig[j],
            decreases n - i,
        {
            let ds = self.as_slice()[i + 1];
            let dr = out.as_slice()[i + 1];
            out.set_diff(i, ds.sub(dr.mul(vs).div(vr)).div(vr));
            i = i + 1;
        }
        proof {
            assert(out.sq() =~= div_seq(self.sq(), orig));
        }
        out
    }
}

} // verus!
