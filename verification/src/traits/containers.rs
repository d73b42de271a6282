//! Container capabilities: what a type must offer to back a dual number.
//!
//! A container is anything that can be read as a flat sequence of scalars
//! ([`ROAble`]); a read-write container can additionally be updated slot by
//! slot ([`RWAble`]). [`ToView`] produces a non-owning, read-only handle
//! without copying, and [`ToOwning`] produces an independently owned copy.
//! The crate implements them for the growable buffer `Vec<F>`, for
//! fixed-size arrays `[F; N]`, and for borrowed slices `&[F]`.

use vstd::prelude::*;

use crate::traits::scalars::Scalar;

verus! {

/// Read capability: the container's content, viewed as a flat sequence of
/// scalars.
pub trait ROAble<F: Scalar>: Sized {
    /// The scalar sequence this container holds.
    spec fn sq(&self) -> Seq<F>;

    /// The content as a read-only slice.
    fn ro(&self) -> (r: &[F])
        ensures
            r@ == self.sq(),
    ;
}

/// Write capability: the container can also be updated one slot at a time.
pub trait RWAble<F: Scalar>: ROAble<F> {
    /// Writes `v` into slot `i`.
    fn rw(&mut self, i: usize, v: F)
        requires
            i < old(self).sq().len(),
        ensures
            final(self).sq() == old(self).sq().update(i as int, v),
    ;
}

/// The capability of producing a read-only, non-owning view of the content
/// without copying it.
pub trait ToView<F: Scalar>: ROAble<F> {
    /// A borrowed, read-only handle on the same scalars.
    fn to_view(&self) -> (r: &[F])
        ensures
            r@ == self.sq(),
    ;
}

/// The capability of producing a freshly owned container with the same
/// content.
pub trait ToOwning<F: Scalar>: ROAble<F> {
    /// The owned container type this one copies into.
    type Owning: RWAble<F>;

    /// Copies the content into an independently owned container.
    fn to_owning(&self) -> (r: Self::Owning)
        ensures
            r.sq() == self.sq(),
    ;
}

impl<F: Scalar> ROAble<F> for Vec<F> {
    open spec fn sq(&self) -> Seq<F> {
        self@
    }

    fn ro(&self) -> (r: &[F]) {
        self.as_slice()
    }
}

impl<F: Scalar> RWAble<F> for Vec<F> {
    fn rw(&mut self, i: usize, v: F) {
        self[i] = v;
    }
}

impl<F: Scalar> ToView<F> for Vec<F> {
    fn to_view(&self) -> (r: &[F]) {
        self.as_slice()
    }
}

impl<F: Scalar> ToOwning<F> for Vec<F> {
    type Owning = Vec<F>;

    fn to_owning(&self) -> (r: Vec<F>) {
        copy_slice(self.as_slice())
    }
}

impl<F: Scalar, const N: usize> ROAble<F> for [F; N] {
    open spec fn sq(&self) -> Seq<F> {
        self@
    }

    fn ro(&self) -> (r: &[F]) {
        self.as_slice()
    }
}

impl<F: Scalar, const N: usize> RWAble<F> for [F; N] {
    fn rw(&mut self, i: usize, v: F) {
        self[i] = v;
    }
}

impl<F: Scalar, const N: usize> ToView<F> for [F; N] {
    fn to_view(&self) -> (r: &[F]) {
        self.as_slice()
    }
}

impl<F: Scalar, const N: usize> ToOwning<F> for [F; N] {
    type Owning = [F; N];

    fn to_owning(&self) -> (r: [F; N]) {
        *self
    }
}

impl<'s, F: Scalar> ROAble<F> for &'s [F] {
    open spec fn sq(&self) -> Seq<F> {
        (*self)@
    }

    fn ro(&self) -> (r: &[F]) {
        self
    }
}

impl<'s, F: Scalar> ToView<F> for &'s [F] {
    fn to_view(&self) -> (r: &[F]) {
        self
    }
}

impl<'s, F: Scalar> ToOwning<F> for &'s [F] {
    type Owning = Vec<F>;

    fn to_owning(&self) -> (r: Vec<F>) {
        copy_slice(self)
    }
}

/// Copies a slice of scalars into a fresh vector.
fn copy_slice<F: Scalar>(s: &[F]) -> (r: Vec<F>)
    ensures
        r@ == s@,
{
    let mut r: Vec<F> = Vec::new();
    let n = s.len();
    let mut i: usize = 0;
    while i < n
        invariant
            i <= n,
            n == s@.len(),
            r@ == s@.subrange(0, i as int),
        decreases n - i,
    {
        r.push(s[i]);
        i = i + 1;
    }
    proof {
        assert(r@ == s@.subrange(0, n as int));
        assert(s@.subrange(0, n as int) =~= s@);
    }
    r
}

} // verus!
