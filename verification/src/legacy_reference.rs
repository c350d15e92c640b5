//! The first facade over Sensirion's reference C driver, kept for its users:
//! a unit handle whose commands return the C driver's status code. It
//! reports PM channels without a "no data" check and marks an environmental
//! channel unavailable when it holds 32767 (`crate::conversion::ENV_SENTINEL`).
use vstd::prelude::*;

verus! {

/// Error type wrapping the raw C status return values.
#[derive(Debug, Copy, Clone, PartialEq, Eq, Structural)]
pub enum Sen5xError {
    DriverError(i16),
}

/// The safe handle over the reference C driver.
#[derive(Debug, Copy, Clone, PartialEq, Eq, Structural)]
pub struct Sen5xDriver;

impl Sen5xDriver {
    /// Initializer mimicking the device handle lifecycle.
    pub fn new() -> (r: Self)
        ensures
            r == Sen5xDriver,
    {
        Sen5xDriver
    }
}

/// Maps a C driver status code to a result: zero is success, any other code
/// is returned unchanged as the error.
pub fn status_to_result(rc: i16) -> (r: Result<(), Sen5xError>)
    ensures
        rc == 0 ==> r == Ok::<(), Sen5xError>(()),
        rc != 0 ==> r == Err::<(), Sen5xError>(Sen5xError::DriverError(rc)),
{
    if rc == 0 {
        Ok(())
    } else {
        Err(Sen5xError::DriverError(rc))
    }
}

} // verus!
