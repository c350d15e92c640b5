//! Verified protocol core of a driver for the Sensirion SEN5x environmental
//! sensor family (SEN50, SEN54, SEN55).
//!
//! The library holds everything the driver decides: the CRC-8 that protects
//! every data word on the wire, the framing of command and data words, the
//! decoding of responses, the per-command transactions (which bytes to write,
//! how long to wait, how many bytes to read), the "no data" sentinel
//! classification and the layout of every parameter block.
//! Performing the bus transfers and the waits is left to the caller.
pub mod c_reference;
pub mod conversion;
pub mod crc;
pub mod driver;
pub mod error;
pub mod legacy_reference;
pub mod measurements;
pub mod requests;
pub mod responses;
pub mod sensor_string;
pub mod wire;

pub use conversion::{
    is_env_available,
    is_pm_available,
    FixedPointMeasurements,
    ENV_SENTINEL,
    PM_SENTINEL,
};
pub use driver::{Sen5xDriver, Transaction, DEFAULT_I2C_ADDRESS};
pub use error::Sen5xError;
pub use measurements::{
    Sen5xPmMeasurements,
    Sen5xRawMeasurements,
    Sen5xVersion,
    TemperatureOffsetParameters,
    TuningParameters,
};
pub use requests::Request;
pub use sensor_string::SensorString;
pub use wire::MAX_RESPONSE_WORDS;
