//! Operations between a dual number and a bare scalar.
//!
//! A bare scalar is a constant with respect to every tracked variable, so
//! these are restricted special cases of the dual⊗dual operations:
//! adding or subtracting a scalar only touches the value slot, while
//! multiplying or dividing by a scalar scales every slot uniformly, by
//! linearity of the derivative.

use vstd::prelude::*;

use crate::owning_markers::RW;
use crate::traits::RWAble;
use crate::traits::Scalar;
use crate::Dual;

verus! {

/// The content after adding a bare scalar: only the value slot moves.
pub open spec fn add_scalar_seq<F: Scalar>(a: Seq<F>, c: F) -> Seq<F> {
    a.update(0, a[0].add_sp(c))
}

/// The content after subtracting a bare scalar: only the value slot
/// moves.
pub open spec fn sub_scalar_seq<F: Scalar>(a: Seq<F>, c: F) -> Seq<F> {
    a.update(0, a[0].sub_sp(c))
}

/// The content after multiplying by a bare scalar: every slot, value and
/// derivatives alike, is multiplied by it.
pub open spec fn mul_scalar_seq<F: Scalar>(a: Seq<F>, c: F) -> Seq<F> {
    Seq::new(a.len(), |i: int| a[i].mul_sp(c))
}

/// The content after dividing by a bare scalar: every slot is divided by
/// it.
pub open spec fn div_scalar_seq<F: Scalar>(a: Seq<F>, c: F) -> Seq<F> {
    Seq::new(a.len(), |i: int| a[i].div_sp(c))
}

/// The content of `c - x` for a bare scalar on the left: the value
/// becomes c - v and every derivative is negated.
pub open spec fn sub_from_scalar_seq<F: Scalar>(c: F, a: Seq<F>) -> Seq<F> {
    Seq::new(a.len(), |i: int| if i == 0 { c.sub_sp(a[0]) } else { a[i].neg_sp() })
}

impl<S, F> Dual<S, RW, F>
    where
        S: RWAble<F>,
        F: Scalar,
{
    /// `self + rhs` for a bare scalar: only the value moves, since a
    /// constant has no derivative.
    pub fn add_scalar(self, rhs: F) -> (r: Self)
        requires
            self.wf(),
        ensures
            r.sq() == add_scalar_seq(self.sq(), rhs),
            r.wf(),
    {
        let mut s = self;
        let v = s.val();
        s.set_val(v.add(rhs));
        s
    }

    /// `self - rhs` for a bare scalar: only the value moves.
    pub fn sub_scalar(self, rhs: F) -> (r: Self)
        requires
            self.wf(),
        ensures
            r.sq() == sub_scalar_seq(self.sq(), rhs),
            r.wf(),
    {
        let mut s = self;
        let v = s.val();
        s.set_val(v.sub(rhs));
        s
    }

    /// `self * rhs` for a bare scalar: every slot is scaled by it, the
    /// derivative operator being linear under scalar scaling.
    pub fn mul_scalar(self, rhs: F) -> (r: Self)
        requires
            self.wf(),
        ensures
            r.sq() == mul_scalar_seq(self.sq(), rhs),
            r.wf(),
    {
        let mut s = self;
        let ghost orig = s.sq();
        let n = s.as_slice().len();
        let mut i: usize = 0;
        while i < n
            invariant
                i <= n,
                n == orig.len(),
                s.sq().len() == orig.len(),
                forall|j: int| 0 <= j < i ==> s.sq()[j] == orig[j].mul_sp(rhs),
                forall|j: int| i <= j < orig.len() ==> s.sq()[j] == orig[j],
            decreases n - i,
        {
            let d = s.as_slice()[i];
            s.content.rw(i, d.mul(rhs));
            i = i + 1;
        }
        proof {
            assert(s.sq() =~= mul_scalar_seq(orig, rhs));
        }
        s
    }

    /// `self / rhs` for a bare scalar: every slot is divided by it.
    pub fn div_scalar(self, rhs: F) -> (r: Self)
        requires
            self.wf(),
        ensures
            r.sq() == div_scalar_seq(self.sq(), rhs),
            r.wf(),
    {
        let mut s = self;
        let ghost orig = s.sq();
        let n = s.as_slice().len();
        let mut i: usize = 0;
        while i < n
            invariant
                i <= n,
                n == orig.len(),
                s.sq().len() == orig.len(),
                forall|j: int| 0 <= j < i ==> s.sq()[j] == orig[j].div_sp(rhs),
                forall|j: int| i <= j < orig.len() ==> s.sq()[j] == orig[j],
            decreases n - i,
        {
            let d = s.as_slice()[i];
            s.content.rw(i, d.div(rhs));
            i = i + 1;
        }
        proof {
            assert(s.sq() =~= div_scalar_seq(orig, rhs));
        }
        s
    }

    /// `lhs - self` for a bare scalar on the left: the value becomes
    /// lhs - v and every derivative is negated.
    pub fn sub_from_scalar(self, lhs: F) -> (r: Self)
        requires
            self.wf(),
        ensures
            r.sq() == sub_from_scalar_seq(lhs, self.sq()),
            r.wf(),
    {
        let mut s = self;
        let ghost orig = s.sq();
        let v = s.val();
        s.set_val(lhs.sub(v));
        let n = s.ndiffs();
        let mut i: usize = 0;
        while i < n
            invariant
                i <= n,
                n + 1 == orig.len(),
                s.sq().len() == orig.len(),
                s.sq()[0] == lhs.sub_sp(orig[0]),
                forall|j: int| 1 <= j <= i ==> s.sq()[j] == orig[j].neg_sp(),
                forall|j: int| i < j < orig.len() ==> s.sq()[j] == orig[j],
            decreases n - i,
        {
            let d = s.as_slice()[i + 1];
            s.set_diff(i, d.neg());
            i = i + 1;
        }
        proof {
            assert(s.sq() =~= sub_from_scalar_seq(lhs, orig));
        }
        s
    }
}

} // verus!
