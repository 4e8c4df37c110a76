//! The ways an operation of the driver can fail.

use crate::units::MilliVolts;
use vstd::prelude::*;

verus! {

/// What went wrong. A transport failure and a checksum failure are kept
/// apart: after the second it can make sense to ask again at once.
#[derive(Debug, Copy, Clone, PartialEq, Eq, Structural)]
pub enum Error {
    /// A checksum in a framed read did not match its byte group.
    CRCMismatch,
    /// The transport reported a failure.
    I2CError,
    /// More payload bytes were asked for than one transaction can carry.
    BufTooLarge,
    /// The operation needs calibration or a shunt value and `init` has not
    /// succeeded yet.
    Uninitialized,
    /// A control register read back differently from what was written to
    /// it; carries the register address.
    VerifyError(u8),
    /// The short-circuit and over-current thresholds need different
    /// sense ranges.
    OCDSCDRangeMismatch,
    /// The under-voltage target is outside the achievable window, whose
    /// lower and upper bound are carried.
    UVThresholdUnobtainable(MilliVolts, MilliVolts),
    /// The over-voltage target is outside the achievable window, whose
    /// lower and upper bound are carried.
    OVThresholdUnobtainable(MilliVolts, MilliVolts),
}

impl Error {
    /// The error is one that the bus decides: the transport failed, or
    /// what it delivered was damaged on the way.
    pub open spec fn is_transfer(self) -> bool {
        self == Error::I2CError || self == Error::CRCMismatch
    }
}

} // verus!
