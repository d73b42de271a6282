//! The user-implementable traits behind `Dual`: the scalar capability
//! profile and the container capabilities.

pub mod containers;
pub mod scalars;

pub use containers::ROAble;
pub use containers::RWAble;
pub use containers::ToOwning;
pub use containers::ToView;
pub use scalars::Scalar;
