//! Which raw words mean "no data", and the fixed-point scale of each channel.
//!
//! The sensor reports every measurement as a fixed-point integer. A PM
//! channel word of `0xFFFF` and an environmental channel word of `0x7FFF`
//! mean that the channel has no data (measurement not running, before the
//! first sample, or a channel the connected variant does not have). The
//! sentinels only mean "no data" on their own channel type.
use vstd::prelude::*;

verus! {

/// Raw PM channel word meaning "no data".
pub const PM_SENTINEL: u16 = 0xFFFF;

/// Raw environmental channel word meaning "no data" (32767 as `i16`).
pub const ENV_SENTINEL: i16 = 0x7FFF;

/// PM mass concentrations: raw word / 10 gives µg/m³.
pub const PM_MASS_SCALE: u16 = 10;

/// Relative humidity: raw word / 100 gives %RH.
pub const HUMIDITY_SCALE: u16 = 100;

/// Temperature: raw word / 200 gives °C.
pub const TEMPERATURE_SCALE: u16 = 200;

/// VOC/NOx index: raw word / 10 gives the index.
pub const INDEX_SCALE: u16 = 10;

/// Whether a PM channel word carries valid data (not the `0xFFFF` sentinel).
pub fn is_pm_available(raw: u16) -> (r: bool)
    ensures
        r <==> raw != PM_SENTINEL,
{
    raw != PM_SENTINEL
}

/// Whether an environmental word carries valid data (not the `0x7FFF`
/// sentinel).
pub fn is_env_available(raw: i16) -> (r: bool)
    ensures
        r <==> raw != ENV_SENTINEL,
{
    raw != ENV_SENTINEL
}

/// A PM channel in fixed point (tenths of µg/m³), `None` at the sentinel.
pub open spec fn spec_pm_value(raw: u16) -> Option<u16> {
    if raw == PM_SENTINEL {
        None
    } else {
        Some(raw)
    }
}

/// An environmental channel in fixed point, `None` at the sentinel.
pub open spec fn spec_env_value(raw: i16) -> Option<i16> {
    if raw == ENV_SENTINEL {
        None
    } else {
        Some(raw)
    }
}

/// A PM channel in fixed point (tenths of µg/m³), or `None` when the channel
/// reports the `0xFFFF` sentinel.
pub fn pm_value(raw: u16) -> (r: Option<u16>)
    ensures
        r == spec_pm_value(raw),
{
    if is_pm_available(raw) {
        Some(raw)
    } else {
        None
    }
}

/// An environmental channel in fixed point, or `None` when the channel
/// reports the `0x7FFF` sentinel.
pub fn env_value(raw: i16) -> (r: Option<i16>)
    ensures
        r == spec_env_value(raw),
{
    if is_env_available(raw) {
        Some(raw)
    } else {
        None
    }
}

/// Converted measurements in the sensor's fixed-point units: PM in tenths of
/// µg/m³, humidity in hundredths of %RH, temperature in two-hundredths of °C,
/// VOC/NOx in tenths of an index point. `None` marks a channel that reports
/// its "no data" sentinel.
#[derive(Debug, Copy, Clone, PartialEq, Eq, Structural)]
pub struct FixedPointMeasurements {
    pub pm1_0: Option<u16>,
    pub pm2_5: Option<u16>,
    pub pm4_0: Option<u16>,
    pub pm10_0: Option<u16>,
    pub humidity: Option<i16>,
    pub temperature: Option<i16>,
    pub voc_index: Option<i16>,
    pub nox_index: Option<i16>,
}

impl FixedPointMeasurements {
    /// PM channel `i` (0 to 3: PM1.0, PM2.5, PM4.0, PM10).
    pub open spec fn pm_channel(self, i: int) -> Option<u16> {
        if i == 0 {
            self.pm1_0
        } else if i == 1 {
            self.pm2_5
        } else if i == 2 {
            self.pm4_0
        } else {
            self.pm10_0
        }
    }

    /// Environmental channel `i` (4 to 7: humidity, temperature, VOC, NOx),
    /// numbered by the word that carries it.
    pub open spec fn env_channel(self, i: int) -> Option<i16> {
        if i == 4 {
            self.humidity
        } else if i == 5 {
            self.temperature
        } else if i == 6 {
            self.voc_index
        } else {
            self.nox_index
        }
    }

    /// Classifies the eight raw channel words of a measurement: four PM
    /// channels, then humidity, temperature, VOC index and NOx index.
    pub fn from_channels(
        pm1_0: u16,
        pm2_5: u16,
        pm4_0: u16,
        pm10_0: u16,
        humidity: i16,
        temperature: i16,
        voc_index: i16,
        nox_index: i16,
    ) -> (r: Self)
        ensures
            r.pm1_0 == spec_pm_value(pm1_0),
            r.pm2_5 == spec_pm_value(pm2_5),
            r.pm4_0 == spec_pm_value(pm4_0),
            r.pm10_0 == spec_pm_value(pm10_0),
            r.humidity == spec_env_value(humidity),
            r.temperature == spec_env_value(temperature),
            r.voc_index == spec_env_value(voc_index),
            r.nox_index == spec_env_value(nox_index),
    {
        FixedPointMeasurements {
            pm1_0: pm_value(pm1_0),
            pm2_5: pm_value(pm2_5),
            pm4_0: pm_value(pm4_0),
            pm10_0: pm_value(pm10_0),
            humidity: env_value(humidity),
            temperature: env_value(temperature),
            voc_index: env_value(voc_index),
            nox_index: env_value(nox_index),
        }
    }
}

/// Only the `0xFFFF` word means "no data" on a PM channel: every other
/// word is kept unchanged as the reading.
pub proof fn lemma_pm_classification(raw: u16)
    ensures
        raw == 0xFFFFu16 ==> spec_pm_value(raw) is None,
        raw != 0xFFFFu16 ==> spec_pm_value(raw) == Some(raw),
{
}

/// Only the `0x7FFF` word (32767) means "no data" on an environmental
/// channel: every other word, negative or large, is kept unchanged as the
/// reading.
pub proof fn lemma_env_classification(raw: i16)
    ensures
        raw == 0x7FFFi16 ==> spec_env_value(raw) is None,
        raw != 0x7FFFi16 ==> spec_env_value(raw) == Some(raw),
{
}

/// A measurement block carries every non-sentinel channel word unchanged:
/// PM words as they are, environmental words as two's-complement values.
pub proof fn lemma_measurements_keep_channel_words(words: Seq<u16>)
    requires
        words.len() == 8,
    ensures
        forall|i: int|
            0 <= i < 4 ==> words[i] != 0xFFFF ==> #[trigger] FixedPointMeasurements::spec_from_words(
                words,
            ).pm_channel(i) == Some(words[i]),
        forall|i: int|
            4 <= i < 8 ==> words[i] != 0x7FFF ==> (#[trigger] FixedPointMeasurements::spec_from_words(
                words,
            ).env_channel(i) matches Some(v) && v as int == (if words[i] < 0x8000 {
                words[i] as int
            } else {
                words[i] - 0x10000
            })),
        forall|i: int|
            4 <= i < 8 ==> words[i] == 0x7FFF ==> #[trigger] FixedPointMeasurements::spec_from_words(
                words,
            ).env_channel(i) is None,
        forall|i: int|
            0 <= i < 4 ==> words[i] == 0xFFFF ==> #[trigger] FixedPointMeasurements::spec_from_words(
                words,
            ).pm_channel(i) is None,
{
    assert forall|i: int| 4 <= i < 8 implies #[trigger] crate::measurements::spec_word_as_i16(words[i])
        as int == (if words[i] < 0x8000 {
        words[i] as int
    } else {
        words[i] - 0x10000
    }) by {
        crate::measurements::lemma_twos_complement(0, words[i]);
    }
}

} // verus!
