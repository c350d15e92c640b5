//! Errors of the pure Rust driver.
use vstd::prelude::*;

verus! {

/// Errors returned by the SEN5x driver.
#[derive(Debug, PartialEq, Eq)]
pub enum Sen5xError<E> {
    /// The underlying I2C transaction failed.
    I2c(E),
    /// A response word contained an invalid CRC.
    Crc,
    /// A caller supplied an argument that cannot be represented by the wire protocol.
    InvalidArgument,
}

impl<E> From<E> for Sen5xError<E> {
    /// Wraps a bus error.
    fn from(error: E) -> (r: Self) {
        Sen5xError::I2c(error)
    }
}

impl<E> vstd::std_specs::convert::FromSpecImpl<E> for Sen5xError<E> {
    open spec fn obeys_from_spec() -> bool {
        true
    }

    open spec fn from_spec(error: E) -> Self {
        Sen5xError::I2c(error)
    }
}

} // verus!
