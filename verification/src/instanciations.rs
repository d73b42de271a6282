//! Ready-made bindings of [`Dual`](crate::Dual) to the common containers,
//! so that users do not have to spell the generic parameters out.

use vstd::prelude::*;

use crate::owning_markers::RO;
use crate::owning_markers::RW;
use crate::Dual;

verus! {

/// An owning, read-write dual number backed by a growable buffer.
pub type Owning<F> = Dual<Vec<F>, RW, F>;

/// A non-owning, read-only dual number backed by a borrowed slice.
pub type View<'a, F> = Dual<&'a [F], RO, F>;

/// An owning, read-write dual number backed by a fixed-size array of
/// `N` slots (one value and `N - 1` derivatives).
pub type OwningArr<F, const N: usize> = Dual<[F; N], RW, F>;

} // verus!
