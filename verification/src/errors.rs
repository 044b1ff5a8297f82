//! The error kinds shared by every driver in the crate.

use vstd::prelude::*;

verus! {

/// One failure kind per way a measurement can go wrong.
///
/// - `BusIoError`: the transport failed to read or write a register.
/// - `DeviceIdentityMismatch`: the identity register did not hold the byte
///   documented for the part; construction fails with this instead of
///   aborting, so an orchestrator can skip or retry the one sensor.
/// - `PollTimeout`: a ready bit was still clear after the configured number
///   of polling attempts.
/// - `SingularCalibration`: a calibration denominator was zero, so the
///   conversion formula has no defined value.
/// - `ConfigurationInvalid`: a parameter or an intermediate value was outside
///   the range on which the conversion formula is defined.
#[derive(Clone, Copy, Debug, PartialEq, Eq, Structural)]
pub enum SensorError {
    BusIoError,
    DeviceIdentityMismatch,
    PollTimeout,
    SingularCalibration,
    ConfigurationInvalid,
}

/// The identity decision every driver makes at construction: accept exactly
/// the documented identity byte, report `DeviceIdentityMismatch` for any
/// other.
pub fn check_identity(id: u8, expected: u8) -> (r: Result<(), SensorError>)
    ensures
        id == expected ==> r == Ok::<(), SensorError>(()),
        id != expected ==> r == Err::<(), SensorError>(SensorError::DeviceIdentityMismatch),
{
    if id == expected {
        Ok(())
    } else {
        Err(SensorError::DeviceIdentityMismatch)
    }
}

} // verus!
