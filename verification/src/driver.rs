//! The driver handle, the SEN5x command set, and the bus transaction each
//! driver command performs.
//!
//! Every command the driver issues is one transaction: write a frame to the
//! sensor's address, optionally wait, then optionally read a response of
//! CRC-protected words. The library decides the frame, the wait and the
//! response length; the bus transfers and the wait itself are performed by
//! the caller, which hands the response bytes back to the decoders in
//! `crate::wire` and `crate::measurements`.
use vstd::prelude::*;
use crate::error::Sen5xError;
use crate::wire::{
    command_frame,
    frame_payload,
    frame_words,
    payload_fits,
    words_to_bytes,
    MAX_RESPONSE_WORDS,
};

verus! {

/// The default 7-bit I2C address used by SEN5x devices.
pub const DEFAULT_I2C_ADDRESS: u8 = 0x69;

/// Response preparation time of most commands, in microseconds.
pub const DELAY_20MS_US: u32 = 20_000;

/// Wait after starting a measurement or before reading a string, in
/// microseconds.
pub const DELAY_50MS_US: u32 = 50_000;

/// Wait after a reset or after stopping a measurement, in microseconds.
pub const DELAY_200MS_US: u32 = 200_000;

/// The SEN5x command codes.
#[derive(Debug, Copy, Clone, PartialEq, Eq, Structural)]
pub enum Command {
    DeviceReset,
    ReadProductName,
    ReadSerialNumber,
    ReadDeviceStatus,
    StartMeasurement,
    StartMeasurementWithoutPm,
    StopMeasurement,
    ReadDataReady,
    ReadMeasurements,
    ReadRawMeasurements,
    ReadPmMeasurements,
    GetVersion,
    ReadAndClearDeviceStatus,
    StartFanCleaning,
    TemperatureOffset,
    WarmStart,
    VocTuning,
    NoxTuning,
    RhtAcceleration,
    VocAlgorithmState,
    FanAutoCleaningInterval,
}

impl Command {
    /// The 16-bit command code.
    pub open spec fn spec_code(self) -> u16 {
        match self {
            Command::DeviceReset => 0xD304,
            Command::ReadProductName => 0xD014,
            Command::ReadSerialNumber => 0xD033,
            Command::ReadDeviceStatus => 0xD206,
            Command::StartMeasurement => 0x0021,
            Command::StartMeasurementWithoutPm => 0x0037,
            Command::StopMeasurement => 0x0104,
            Command::ReadDataReady => 0x0202,
            Command::ReadMeasurements => 0x03C4,
            Command::ReadRawMeasurements => 0x03D2,
            Command::ReadPmMeasurements => 0x0413,
            Command::GetVersion => 0xD100,
            Command::ReadAndClearDeviceStatus => 0xD210,
            Command::StartFanCleaning => 0x5607,
            Command::TemperatureOffset => 0x60B2,
            Command::WarmStart => 0x60C6,
            Command::VocTuning => 0x60D0,
            Command::NoxTuning => 0x60E1,
            Command::RhtAcceleration => 0x60F7,
            Command::VocAlgorithmState => 0x6181,
            Command::FanAutoCleaningInterval => 0x8004,
        }
    }

    /// The two bytes of the command code as sent on the wire, most
    /// significant first.
    pub open spec fn spec_bytes(self) -> Seq<u8> {
        seq![(self.spec_code() / 256) as u8, (self.spec_code() % 256) as u8]
    }

    /// The two bytes of the command code as sent on the wire, most
    /// significant first.
    pub fn bytes(self) -> (r: [u8; 2])
        ensures
            r@ == self.spec_bytes(),
    {
        let r: [u8; 2] = match self {
            Command::DeviceReset => [0xD3, 0x04],
            Command::ReadProductName => [0xD0, 0x14],
            Command::ReadSerialNumber => [0xD0, 0x33],
            Command::ReadDeviceStatus => [0xD2, 0x06],
            Command::StartMeasurement => [0x00, 0x21],
            Command::StartMeasurementWithoutPm => [0x00, 0x37],
            Command::StopMeasurement => [0x01, 0x04],
            Command::ReadDataReady => [0x02, 0x02],
            Command::ReadMeasurements => [0x03, 0xC4],
            Command::ReadRawMeasurements => [0x03, 0xD2],
            Command::ReadPmMeasurements => [0x04, 0x13],
            Command::GetVersion => [0xD1, 0x00],
            Command::ReadAndClearDeviceStatus => [0xD2, 0x10],
            Command::StartFanCleaning => [0x56, 0x07],
            Command::TemperatureOffset => [0x60, 0xB2],
            Command::WarmStart => [0x60, 0xC6],
            Command::VocTuning => [0x60, 0xD0],
            Command::NoxTuning => [0x60, 0xE1],
            Command::RhtAcceleration => [0x60, 0xF7],
            Command::VocAlgorithmState => [0x61, 0x81],
            Command::FanAutoCleaningInterval => [0x80, 0x04],
        };
        proof {
            assert(r@ =~= seq![(self.spec_code() / 256) as u8, (self.spec_code() % 256) as u8]);
        }
        r
    }
}

/// One bus transaction: write `write` to the sensor, then wait `delay_us`
/// microseconds if a wait is given, then read `read_len` bytes if that is
/// not zero.
#[derive(Debug, Clone, PartialEq, Eq)]
pub struct Transaction {
    pub write: Vec<u8>,
    pub delay_us: Option<u32>,
    pub read_len: usize,
}

/// Sends a bare command: no wait, no response.
pub fn write_command(command: [u8; 2]) -> (t: Transaction)
    ensures
        t.write@ == command@,
        t.delay_us is None,
        t.read_len == 0,
{
    let mut write: Vec<u8> = Vec::new();
    write.push(command[0]);
    write.push(command[1]);
    proof {
        assert(write@ =~= command@);
    }
    Transaction { write, delay_us: None, read_len: 0 }
}

/// Sends a command followed by data words, each CRC-protected, in one frame.
/// More than `MAX_RESPONSE_WORDS` words are rejected before any bus access.
pub fn write_command_with_words<E>(command: [u8; 2], words: &[u16]) -> (r: Result<
    Transaction,
    Sen5xError<E>,
>)
    ensures
        words@.len() <= MAX_RESPONSE_WORDS ==> (r matches Ok(t) && t.write@ == command_frame(
            command@,
            words_to_bytes(words@),
        ) && t.delay_us is None && t.read_len == 0),
        words@.len() > MAX_RESPONSE_WORDS ==> r matches Err(Sen5xError::InvalidArgument),
{
    if words.len() > MAX_RESPONSE_WORDS {
        return Err(Sen5xError::InvalidArgument);
    }
    Ok(Transaction { write: frame_words(command, words), delay_us: None, read_len: 0 })
}

/// Sends a command followed by an even number of raw data bytes, each
/// two-byte word CRC-protected, in one frame. Odd payloads and payloads of
/// more than `MAX_RESPONSE_WORDS` words are rejected before any bus access.
pub fn write_command_with_payload<E>(command: [u8; 2], payload: &[u8]) -> (r: Result<
    Transaction,
    Sen5xError<E>,
>)
    ensures
        payload_fits(payload@) ==> (r matches Ok(t) && t.write@ == command_frame(command@, payload@)
            && t.delay_us is None && t.read_len == 0),
        !payload_fits(payload@) ==> r matches Err(Sen5xError::InvalidArgument),
{
    if payload.len() % 2 != 0 || payload.len() / 2 > MAX_RESPONSE_WORDS {
        return Err(Sen5xError::InvalidArgument);
    }
    Ok(Transaction { write: frame_payload(command, payload), delay_us: None, read_len: 0 })
}

/// Sends a command, waits `delay_us`, then reads a response of `n_words`
/// CRC-protected words (`3 * n_words` bytes). More than
/// `MAX_RESPONSE_WORDS` words are rejected before any bus access.
pub fn read_words<E>(command: [u8; 2], delay_us: u32, n_words: usize) -> (r: Result<
    Transaction,
    Sen5xError<E>,
>)
    ensures
        n_words <= MAX_RESPONSE_WORDS ==> (r matches Ok(t) && t.write@ == command@ && t.delay_us
            == Some(delay_us) && t.read_len == 3 * n_words),
        n_words > MAX_RESPONSE_WORDS ==> r matches Err(Sen5xError::InvalidArgument),
{
    if n_words > MAX_RESPONSE_WORDS {
        return Err(Sen5xError::InvalidArgument);
    }
    let t = write_command(command);
    Ok(Transaction { write: t.write, delay_us: Some(delay_us), read_len: n_words * 3 })
}

/// Sends a command, waits `delay_us`, then reads `n_bytes` data bytes, every
/// two of them followed by a CRC byte (`3 * n_bytes / 2` bytes). An odd
/// count, or more than `2 * MAX_RESPONSE_WORDS` bytes, is rejected before
/// any bus access.
pub fn read_bytes<E>(command: [u8; 2], delay_us: u32, n_bytes: usize) -> (r: Result<
    Transaction,
    Sen5xError<E>,
>)
    ensures
        (n_bytes % 2 == 0 && n_bytes / 2 <= MAX_RESPONSE_WORDS) ==> (r matches Ok(t) && t.write@
            == command@ && t.delay_us == Some(delay_us) && t.read_len == 3 * (n_bytes / 2)),
        !(n_bytes % 2 == 0 && n_bytes / 2 <= MAX_RESPONSE_WORDS) ==> r matches Err(
            Sen5xError::InvalidArgument,
        ),
{
    if n_bytes % 2 != 0 || n_bytes / 2 > MAX_RESPONSE_WORDS {
        return Err(Sen5xError::InvalidArgument);
    }
    let t = write_command(command);
    Ok(Transaction { write: t.write, delay_us: Some(delay_us), read_len: (n_bytes / 2) * 3 })
}

/// The driver handle: the bus, the delay provider and the sensor's 7-bit
/// I2C address.
pub struct Sen5xDriver<I2C, D> {
    i2c: I2C,
    delay: D,
    address: u8,
}

impl<I2C, D> Sen5xDriver<I2C, D> {
    /// The bus the driver talks over.
    pub closed spec fn spec_i2c(&self) -> I2C {
        self.i2c
    }

    /// The delay provider the driver waits with.
    pub closed spec fn spec_delay(&self) -> D {
        self.delay
    }

    /// The sensor's 7-bit I2C address.
    pub closed spec fn spec_address(&self) -> u8 {
        self.address
    }

    /// Creates a driver using the default SEN5x I2C address (`0x69`).
    pub fn new(i2c: I2C, delay: D) -> (r: Self)
        ensures
            r.spec_i2c() == i2c,
            r.spec_delay() == delay,
            r.spec_address() == DEFAULT_I2C_ADDRESS,
    {
        Self::new_with_address(i2c, delay, DEFAULT_I2C_ADDRESS)
    }

    /// Creates a driver using a caller-supplied 7-bit I2C address.
    pub fn new_with_address(i2c: I2C, delay: D, address: u8) -> (r: Self)
        ensures
            r.spec_i2c() == i2c,
            r.spec_delay() == delay,
            r.spec_address() == address,
    {
        Sen5xDriver { i2c, delay, address }
    }

    /// Returns the configured 7-bit I2C address.
    pub fn address(&self) -> (r: u8)
        ensures
            r == self.spec_address(),
    {
        self.address
    }

    /// Consumes the driver and returns the underlying I2C bus and delay
    /// provider.
    pub fn destroy(self) -> (r: (I2C, D))
        ensures
            r.0 == self.spec_i2c(),
            r.1 == self.spec_delay(),
    {
        (self.i2c, self.delay)
    }

    /// Lends out the sensor's address, the bus and the delay provider, to
    /// perform a transaction: every transfer goes to the returned address,
    /// and lending leaves the address unchanged.
    pub fn bus(&mut self) -> (r: (u8, &mut I2C, &mut D))
        ensures
            r.0 == old(self).spec_address(),
            *r.1 == old(self).spec_i2c(),
            *r.2 == old(self).spec_delay(),
            final(self).spec_i2c() == *final(r.1),
            final(self).spec_delay() == *final(r.2),
            final(self).spec_address() == old(self).spec_address(),
    {
        (self.address, &mut self.i2c, &mut self.delay)
    }
}

} // verus!
