//! Convenience re-exports for common usage.

pub use crate::base::{DecoderAlgorithm, Implementation, ParamFlags};
pub use crate::emissions::CovarianceType;
pub use crate::error::{HmmError, Result};
