//! The driver's error type.

use vstd::prelude::*;

verus! {

/// BQ25773 errors.
///
/// Neither kind is retried by this crate: every failure goes back to the
/// caller of the operation that met it.
#[derive(Debug, Clone, Copy, PartialEq, Eq, PartialOrd, Ord)]
pub enum BQ25773Error<I2cError> {
    /// The payload does not match the declared register width, or is wider
    /// than any register of the device. This is a defect in the caller or in
    /// its register catalogue, not a condition that passes.
    Framing,
    /// The bus transport reported a failure, handed on as it came.
    I2c(I2cError),
}

} // verus!
