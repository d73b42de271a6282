//! Marker types that record, in the type, whether a `Dual` may write into
//! its backing container.
//!
//! The markers are empty structs: the capability they stand for is checked
//! entirely at compile time through the [`CompatibleWith`] bound, never at
//! run time.

use vstd::prelude::*;

use crate::traits::containers::ROAble;
use crate::traits::containers::RWAble;
use crate::traits::scalars::Scalar;

verus! {

/// Marks a dual number whose container only needs read capability.
#[derive(PartialEq, Eq, Structural, Debug, Clone, Copy)]
pub struct RO;

/// Marks a dual number whose container must also offer write capability.
#[derive(PartialEq, Eq, Structural, Debug, Clone, Copy)]
pub struct RW;

/// A supertrait that keeps [`OwningMode`] closed: it is implemented for
/// [`RO`] and [`RW`] and deliberately for nothing else.
pub trait Sealed {
}

impl Sealed for RO {
}

impl Sealed for RW {
}

/// The two ownership modes a dual number can carry.
pub trait OwningMode: Sealed {
}

impl OwningMode for RO {
}

impl OwningMode for RW {
}

/// Whether a container type offers the capability that an ownership-mode
/// marker demands.
pub trait CompatibleWith<OM: OwningMode, F: Scalar> {
}

/// Read-only mode only asks the container for read capability.
impl<F: Scalar, T: ROAble<F>> CompatibleWith<RO, F> for T {
}

/// Read-write mode asks the container for write capability as well.
impl<F: Scalar, T: RWAble<F>> CompatibleWith<RW, F> for T {
}

} // verus!
