//! The operations that are grouped by what they act on.

pub use crate::filterops::FilterOps;
pub use crate::markerops::MarkerOps;
