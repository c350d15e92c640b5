//! Decoding a command's whole response, as read from the bus, into the
//! command's result. Every decoder fails with `Sen5xError::Crc` exactly when
//! a word of the response carries a wrong CRC.
use vstd::prelude::*;
use crate::conversion::FixedPointMeasurements;
use crate::error::Sen5xError;
use crate::measurements::{
    data_byte,
    data_ready_from_bytes,
    device_status_from_words,
    spec_u32_from_words,
    voc_state_from_words,
    Sen5xPmMeasurements,
    Sen5xRawMeasurements,
    Sen5xVersion,
    TemperatureOffsetParameters,
    TuningParameters,
};
use crate::sensor_string::{terminated_at, SensorString};
use crate::wire::{crcs_valid, decode_bytes, decode_words, response_bytes, response_words};

verus! {

/// Decodes the 24-byte response of the measurement command (8 words).
pub fn decode_measurements<E>(response: &[u8]) -> (r: Result<FixedPointMeasurements, Sen5xError<E>>)
    requires
        response@.len() == 24,
    ensures
        crcs_valid(response@) ==> r == Ok::<FixedPointMeasurements, Sen5xError<E>>(
            FixedPointMeasurements::spec_from_words(response_words(response@)),
        ),
        !crcs_valid(response@) ==> r matches Err(Sen5xError::Crc),
{
    match decode_words(response) {
        Ok(words) => Ok(FixedPointMeasurements::from_words(words.as_slice())),
        Err(e) => Err(e),
    }
}

/// Decodes the 12-byte response of the raw-measurement command (4 words).
pub fn decode_raw_measurements<E>(response: &[u8]) -> (r: Result<Sen5xRawMeasurements, Sen5xError<E>>)
    requires
        response@.len() == 12,
    ensures
        crcs_valid(response@) ==> r == Ok::<Sen5xRawMeasurements, Sen5xError<E>>(
            Sen5xRawMeasurements::spec_from_words(response_words(response@)),
        ),
        !crcs_valid(response@) ==> r matches Err(Sen5xError::Crc),
{
    match decode_words(response) {
        Ok(words) => Ok(Sen5xRawMeasurements::from_words(words.as_slice())),
        Err(e) => Err(e),
    }
}

/// Decodes the 30-byte response of the extended PM command (10 words).
pub fn decode_pm_measurements<E>(response: &[u8]) -> (r: Result<Sen5xPmMeasurements, Sen5xError<E>>)
    requires
        response@.len() == 30,
    ensures
        crcs_valid(response@) ==> r == Ok::<Sen5xPmMeasurements, Sen5xError<E>>(
            Sen5xPmMeasurements::spec_from_words(response_words(response@)),
        ),
        !crcs_valid(response@) ==> r matches Err(Sen5xError::Crc),
{
    match decode_words(response) {
        Ok(words) => Ok(Sen5xPmMeasurements::from_words(words.as_slice())),
        Err(e) => Err(e),
    }
}

/// Decodes the 12-byte response of the version command (4 words).
pub fn decode_version<E>(response: &[u8]) -> (r: Result<Sen5xVersion, Sen5xError<E>>)
    requires
        response@.len() == 12,
    ensures
        crcs_valid(response@) ==> r == Ok::<Sen5xVersion, Sen5xError<E>>(
            Sen5xVersion::spec_from_words(response_words(response@)),
        ),
        !crcs_valid(response@) ==> r matches Err(Sen5xError::Crc),
{
    match decode_words(response) {
        Ok(words) => Ok(Sen5xVersion::from_words(words.as_slice())),
        Err(e) => Err(e),
    }
}

/// Decodes the 9-byte response of the temperature offset command (3 words).
pub fn decode_temperature_offset_parameters<E>(response: &[u8]) -> (r: Result<
    TemperatureOffsetParameters,
    Sen5xError<E>,
>)
    requires
        response@.len() == 9,
    ensures
        crcs_valid(response@) ==> r == Ok::<TemperatureOffsetParameters, Sen5xError<E>>(
            TemperatureOffsetParameters::spec_from_words(response_words(response@)),
        ),
        !crcs_valid(response@) ==> r matches Err(Sen5xError::Crc),
{
    match decode_words(response) {
        Ok(words) => Ok(TemperatureOffsetParameters::from_words(words.as_slice())),
        Err(e) => Err(e),
    }
}

/// Decodes the 18-byte response of a VOC or NOx tuning command (6 words).
pub fn decode_tuning_parameters<E>(response: &[u8]) -> (r: Result<TuningParameters, Sen5xError<E>>)
    requires
        response@.len() == 18,
    ensures
        crcs_valid(response@) ==> r == Ok::<TuningParameters, Sen5xError<E>>(
            TuningParameters::spec_from_words(response_words(response@)),
        ),
        !crcs_valid(response@) ==> r matches Err(Sen5xError::Crc),
{
    match decode_words(response) {
        Ok(words) => Ok(TuningParameters::from_words(words.as_slice())),
        Err(e) => Err(e),
    }
}

/// Decodes the 3-byte response of a one-word command (warm start
/// parameter, RH/T acceleration mode).
pub fn decode_word<E>(response: &[u8]) -> (r: Result<u16, Sen5xError<E>>)
    requires
        response@.len() == 3,
    ensures
        crcs_valid(response@) ==> r == Ok::<u16, Sen5xError<E>>(response_words(response@)[0]),
        !crcs_valid(response@) ==> r matches Err(Sen5xError::Crc),
{
    match decode_words(response) {
        Ok(words) => Ok(words[0]),
        Err(e) => Err(e),
    }
}

/// Decodes the 6-byte response of a two-word command into its 32-bit value,
/// most significant word first (device status register, fan auto cleaning
/// interval).
pub fn decode_u32<E>(response: &[u8]) -> (r: Result<u32, Sen5xError<E>>)
    requires
        response@.len() == 6,
    ensures
        crcs_valid(response@) ==> r == Ok::<u32, Sen5xError<E>>(
            spec_u32_from_words(response_words(response@)[0], response_words(response@)[1]),
        ),
        !crcs_valid(response@) ==> r matches Err(Sen5xError::Crc),
{
    match decode_words(response) {
        Ok(words) => Ok(device_status_from_words(words.as_slice())),
        Err(e) => Err(e),
    }
}

/// Decodes the 12-byte response of the VOC algorithm state command into the
/// eight state bytes.
pub fn decode_voc_algorithm_state<E>(response: &[u8]) -> (r: Result<[u8; 8], Sen5xError<E>>)
    requires
        response@.len() == 12,
    ensures
        crcs_valid(response@) ==> (r matches Ok(state) && forall|i: int|
            0 <= i < 8 ==> state@[i] == #[trigger] data_byte(response_words(response@), i)),
        !crcs_valid(response@) ==> r matches Err(Sen5xError::Crc),
{
    match decode_words(response) {
        Ok(words) => Ok(voc_state_from_words(words.as_slice())),
        Err(e) => Err(e),
    }
}

/// Decodes the 3-byte response of the data-ready command: any nonzero second
/// data byte reports ready.
pub fn decode_data_ready<E>(response: &[u8]) -> (r: Result<bool, Sen5xError<E>>)
    requires
        response@.len() == 3,
    ensures
        crcs_valid(response@) ==> r == Ok::<bool, Sen5xError<E>>(response_bytes(response@)[1] != 0),
        !crcs_valid(response@) ==> r matches Err(Sen5xError::Crc),
{
    match decode_bytes(response) {
        Ok(bytes) => Ok(data_ready_from_bytes(bytes.as_slice())),
        Err(e) => Err(e),
    }
}

/// Decodes the 48-byte response of a string command (16 words, 32 data
/// bytes) into the string that ends at the first NUL.
pub fn decode_sensor_string<E>(response: &[u8]) -> (r: Result<SensorString, Sen5xError<E>>)
    requires
        response@.len() == 48,
    ensures
        crcs_valid(response@) ==> (r matches Ok(s) && terminated_at(
            response_bytes(response@),
            s@.len() as int,
        ) && s@ == response_bytes(response@).take(s@.len() as int)),
        !crcs_valid(response@) ==> r matches Err(Sen5xError::Crc),
{
    match decode_bytes(response) {
        Ok(b) => {
            let bytes: [u8; 32] = [
                b[0], b[1], b[2], b[3], b[4], b[5], b[6], b[7],
                b[8], b[9], b[10], b[11], b[12], b[13], b[14], b[15],
                b[16], b[17], b[18], b[19], b[20], b[21], b[22], b[23],
                b[24], b[25], b[26], b[27], b[28], b[29], b[30], b[31],
            ];
            proof {
                assert(bytes@ =~= b@);
            }
            Ok(SensorString::from_bytes(bytes))
        },
        Err(e) => Err(e),
    }
}

} // verus!
