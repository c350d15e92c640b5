//! The data blocks the sensor reports or accepts, and their layout as data
//! words on the wire.
use vstd::prelude::*;
use crate::conversion::{spec_env_value, spec_pm_value, FixedPointMeasurements};
use crate::wire::{word_hi, word_lo};

verus! {

/// A data word read as a two's-complement `i16`.
pub open spec fn spec_word_as_i16(w: u16) -> i16 {
    if w < 0x8000 {
        w as i16
    } else {
        (w - 0x10000) as i16
    }
}

/// The two's-complement data word of an `i16`.
pub open spec fn spec_i16_as_word(v: i16) -> u16 {
    if v >= 0 {
        v as u16
    } else {
        (v + 0x10000) as u16
    }
}

/// The 32-bit value of two data words, most significant word first.
pub open spec fn spec_u32_from_words(hi: u16, lo: u16) -> u32 {
    (hi * 0x10000 + lo) as u32
}

/// Reads a data word as a two's-complement `i16`.
pub fn word_as_i16(w: u16) -> (v: i16)
    ensures
        v == spec_word_as_i16(w),
{
    if w < 0x8000 {
        w as i16
    } else {
        (w as i32 - 0x10000) as i16
    }
}

/// The two's-complement data word of an `i16`.
pub fn i16_as_word(v: i16) -> (w: u16)
    ensures
        w == spec_i16_as_word(v),
{
    if v >= 0 {
        v as u16
    } else {
        (v as i32 + 0x10000) as u16
    }
}

/// Joins two data words, most significant first, into a 32-bit value.
pub fn u32_from_words(hi: u16, lo: u16) -> (r: u32)
    ensures
        r == spec_u32_from_words(hi, lo),
        r as int == hi * 0x10000 + lo,
{
    (hi as u32) * 0x10000 + (lo as u32)
}

/// Splits a 32-bit value into two data words, most significant first.
pub fn u32_to_words(value: u32) -> (r: (u16, u16))
    ensures
        r.0 == value / 0x10000,
        r.1 == value % 0x10000,
{
    ((value / 0x10000) as u16, (value % 0x10000) as u16)
}

/// A signed value survives the trip through its data word.
pub proof fn lemma_i16_word_round_trip(v: i16, w: u16)
    ensures
        spec_word_as_i16(spec_i16_as_word(v)) == v,
        spec_i16_as_word(spec_word_as_i16(w)) == w,
{
}

/// A 32-bit value survives the trip through its two data words.
pub proof fn lemma_u32_words_round_trip(value: u32, hi: u16, lo: u16)
    ensures
        spec_u32_from_words((value / 0x10000) as u16, (value % 0x10000) as u16) == value,
        spec_u32_from_words(hi, lo) / 0x10000 == hi,
        spec_u32_from_words(hi, lo) % 0x10000 == lo,
{
}

impl FixedPointMeasurements {
    /// The classified measurement block of eight words.
    pub open spec fn spec_from_words(words: Seq<u16>) -> Self {
        FixedPointMeasurements {
            pm1_0: spec_pm_value(words[0]),
            pm2_5: spec_pm_value(words[1]),
            pm4_0: spec_pm_value(words[2]),
            pm10_0: spec_pm_value(words[3]),
            humidity: spec_env_value(spec_word_as_i16(words[4])),
            temperature: spec_env_value(spec_word_as_i16(words[5])),
            voc_index: spec_env_value(spec_word_as_i16(words[6])),
            nox_index: spec_env_value(spec_word_as_i16(words[7])),
        }
    }

    /// Classifies the eight words of the 0x03C4 measurement block: four
    /// unsigned PM words, then humidity, temperature, VOC and NOx as signed
    /// words.
    pub fn from_words(words: &[u16]) -> (r: Self)
        requires
            words@.len() == 8,
        ensures
            r.pm1_0 == spec_pm_value(words@[0]),
            r.pm2_5 == spec_pm_value(words@[1]),
            r.pm4_0 == spec_pm_value(words@[2]),
            r.pm10_0 == spec_pm_value(words@[3]),
            r.humidity == spec_env_value(spec_word_as_i16(words@[4])),
            r.temperature == spec_env_value(spec_word_as_i16(words@[5])),
            r.voc_index == spec_env_value(spec_word_as_i16(words@[6])),
            r.nox_index == spec_env_value(spec_word_as_i16(words@[7])),
            r == Self::spec_from_words(words@),
    {
        FixedPointMeasurements::from_channels(
            words[0],
            words[1],
            words[2],
            words[3],
            word_as_i16(words[4]),
            word_as_i16(words[5]),
            word_as_i16(words[6]),
            word_as_i16(words[7]),
        )
    }
}

/// Raw (unscaled) ticks from the 0x03D2 command: humidity (÷ 100 for %RH)
/// and temperature (÷ 200 for °C) share the ambient scale factors; VOC and
/// NOx have no scale factor.
#[derive(Debug, Copy, Clone, PartialEq, Eq, Structural)]
pub struct Sen5xRawMeasurements {
    pub humidity: i16,
    pub temperature: i16,
    pub voc: u16,
    pub nox: u16,
}

impl Sen5xRawMeasurements {
    /// The raw-measurement block of four words.
    pub open spec fn spec_from_words(words: Seq<u16>) -> Self {
        Sen5xRawMeasurements {
            humidity: spec_word_as_i16(words[0]),
            temperature: spec_word_as_i16(words[1]),
            voc: words[2],
            nox: words[3],
        }
    }

    /// Reads the four words of the raw-measurement block.
    pub fn from_words(words: &[u16]) -> (r: Self)
        requires
            words@.len() == 4,
        ensures
            r.humidity == spec_word_as_i16(words@[0]),
            r.temperature == spec_word_as_i16(words@[1]),
            r.voc == words@[2],
            r.nox == words@[3],
            r == Self::spec_from_words(words@),
    {
        Sen5xRawMeasurements {
            humidity: word_as_i16(words[0]),
            temperature: word_as_i16(words[1]),
            voc: words[2],
            nox: words[3],
        }
    }
}

/// Extended PM block from the 0x0413 command. The `mass_pm*` fields are mass
/// concentrations (÷ 10 for µg/m³); the `number_pm*` fields are number
/// concentrations and `typical_particle_size` is unscaled. All values are
/// the raw fixed-point words the sensor emits.
#[derive(Debug, Copy, Clone, PartialEq, Eq, Structural)]
pub struct Sen5xPmMeasurements {
    pub mass_pm1_0: u16,
    pub mass_pm2_5: u16,
    pub mass_pm4_0: u16,
    pub mass_pm10_0: u16,
    pub number_pm0_5: u16,
    pub number_pm1_0: u16,
    pub number_pm2_5: u16,
    pub number_pm4_0: u16,
    pub number_pm10_0: u16,
    pub typical_particle_size: u16,
}

impl Sen5xPmMeasurements {
    /// The extended PM block of ten words.
    pub open spec fn spec_from_words(words: Seq<u16>) -> Self {
        Sen5xPmMeasurements {
            mass_pm1_0: words[0],
            mass_pm2_5: words[1],
            mass_pm4_0: words[2],
            mass_pm10_0: words[3],
            number_pm0_5: words[4],
            number_pm1_0: words[5],
            number_pm2_5: words[6],
            number_pm4_0: words[7],
            number_pm10_0: words[8],
            typical_particle_size: words[9],
        }
    }

    /// Reads the ten words of the extended PM block, in wire order.
    pub fn from_words(words: &[u16]) -> (r: Self)
        requires
            words@.len() == 10,
        ensures
            r.mass_pm1_0 == words@[0],
            r.mass_pm2_5 == words@[1],
            r.mass_pm4_0 == words@[2],
            r.mass_pm10_0 == words@[3],
            r.number_pm0_5 == words@[4],
            r.number_pm1_0 == words@[5],
            r.number_pm2_5 == words@[6],
            r.number_pm4_0 == words@[7],
            r.number_pm10_0 == words@[8],
            r.typical_particle_size == words@[9],
            r == Self::spec_from_words(words@),
    {
        Sen5xPmMeasurements {
            mass_pm1_0: words[0],
            mass_pm2_5: words[1],
            mass_pm4_0: words[2],
            mass_pm10_0: words[3],
            number_pm0_5: words[4],
            number_pm1_0: words[5],
            number_pm2_5: words[6],
            number_pm4_0: words[7],
            number_pm10_0: words[8],
            typical_particle_size: words[9],
        }
    }
}

/// Data byte `i` of a word sequence (most significant byte of each word first).
pub open spec fn data_byte(words: Seq<u16>, i: int) -> u8 {
    if i % 2 == 0 {
        word_hi(words[i / 2])
    } else {
        word_lo(words[i / 2])
    }
}

/// Byte `i` of a word sequence, computed.
fn byte_of_words(words: &[u16], i: usize) -> (b: u8)
    requires
        i < 2 * words@.len(),
    ensures
        b == data_byte(words@, i as int),
{
    let word = words[i / 2];
    if i % 2 == 0 {
        (word / 256) as u8
    } else {
        (word % 256) as u8
    }
}

/// Firmware, hardware and protocol version from the 0xD100 command.
#[derive(Debug, Copy, Clone, PartialEq, Eq, Structural)]
pub struct Sen5xVersion {
    pub firmware_major: u8,
    pub firmware_minor: u8,
    pub firmware_debug: bool,
    pub hardware_major: u8,
    pub hardware_minor: u8,
    pub protocol_major: u8,
    pub protocol_minor: u8,
}

impl Sen5xVersion {
    /// The version from the first seven data bytes of four words.
    pub open spec fn spec_from_words(words: Seq<u16>) -> Self {
        Sen5xVersion {
            firmware_major: data_byte(words, 0),
            firmware_minor: data_byte(words, 1),
            firmware_debug: data_byte(words, 2) != 0,
            hardware_major: data_byte(words, 3),
            hardware_minor: data_byte(words, 4),
            protocol_major: data_byte(words, 5),
            protocol_minor: data_byte(words, 6),
        }
    }

    /// Reads the version from the four words the sensor clocks out; the
    /// fields are the first seven data bytes, the eighth is unused.
    pub fn from_words(words: &[u16]) -> (r: Self)
        requires
            words@.len() == 4,
        ensures
            r.firmware_major == data_byte(words@, 0),
            r.firmware_minor == data_byte(words@, 1),
            r.firmware_debug == (data_byte(words@, 2) != 0),
            r.hardware_major == data_byte(words@, 3),
            r.hardware_minor == data_byte(words@, 4),
            r.protocol_major == data_byte(words@, 5),
            r.protocol_minor == data_byte(words@, 6),
            r == Self::spec_from_words(words@),
    {
        Sen5xVersion {
            firmware_major: byte_of_words(words, 0),
            firmware_minor: byte_of_words(words, 1),
            firmware_debug: byte_of_words(words, 2) != 0,
            hardware_major: byte_of_words(words, 3),
            hardware_minor: byte_of_words(words, 4),
            protocol_major: byte_of_words(words, 5),
            protocol_minor: byte_of_words(words, 6),
        }
    }
}

/// Temperature offset parameters from the 0x60B2 command: a constant offset
/// (÷ 200 for °C), a normalized slope (÷ 10000) and a time constant in
/// seconds.
#[derive(Debug, Copy, Clone, PartialEq, Eq, Structural)]
pub struct TemperatureOffsetParameters {
    pub temp_offset: i16,
    pub slope: i16,
    pub time_constant: u16,
}

impl TemperatureOffsetParameters {
    /// The temperature offset block of three words.
    pub open spec fn spec_from_words(words: Seq<u16>) -> Self {
        TemperatureOffsetParameters {
            temp_offset: spec_word_as_i16(words[0]),
            slope: spec_word_as_i16(words[1]),
            time_constant: words[2],
        }
    }

    /// Reads the three words of the temperature offset block.
    pub fn from_words(words: &[u16]) -> (r: Self)
        requires
            words@.len() == 3,
        ensures
            r.temp_offset == spec_word_as_i16(words@[0]),
            r.slope == spec_word_as_i16(words@[1]),
            r.time_constant == words@[2],
            r == Self::spec_from_words(words@),
    {
        TemperatureOffsetParameters {
            temp_offset: word_as_i16(words[0]),
            slope: word_as_i16(words[1]),
            time_constant: words[2],
        }
    }

    /// The three data words that set these parameters.
    pub fn to_words(&self) -> (r: Vec<u16>)
        ensures
            r@ == seq![
                spec_i16_as_word(self.temp_offset),
                spec_i16_as_word(self.slope),
                self.time_constant,
            ],
    {
        let mut words: Vec<u16> = Vec::new();
        words.push(i16_as_word(self.temp_offset));
        words.push(i16_as_word(self.slope));
        words.push(self.time_constant);
        proof {
            assert(words@ =~= seq![
                spec_i16_as_word(self.temp_offset),
                spec_i16_as_word(self.slope),
                self.time_constant,
            ]);
        }
        words
    }
}

/// VOC/NOx algorithm tuning parameters from the 0x60D0/0x60E1 commands.
/// Both algorithms share the same six fields, all scaled as raw integers.
#[derive(Debug, Copy, Clone, PartialEq, Eq, Structural)]
pub struct TuningParameters {
    pub index_offset: i16,
    pub learning_time_offset_hours: i16,
    pub learning_time_gain_hours: i16,
    pub gating_max_duration_minutes: i16,
    pub std_initial: i16,
    pub gain_factor: i16,
}

impl TuningParameters {
    /// The six fields in wire order.
    pub open spec fn fields(self) -> Seq<i16> {
        seq![
            self.index_offset,
            self.learning_time_offset_hours,
            self.learning_time_gain_hours,
            self.gating_max_duration_minutes,
            self.std_initial,
            self.gain_factor,
        ]
    }

    /// The tuning block of six signed words.
    pub open spec fn spec_from_words(words: Seq<u16>) -> Self {
        TuningParameters {
            index_offset: spec_word_as_i16(words[0]),
            learning_time_offset_hours: spec_word_as_i16(words[1]),
            learning_time_gain_hours: spec_word_as_i16(words[2]),
            gating_max_duration_minutes: spec_word_as_i16(words[3]),
            std_initial: spec_word_as_i16(words[4]),
            gain_factor: spec_word_as_i16(words[5]),
        }
    }

    /// Reads the six signed words of a tuning block.
    pub fn from_words(words: &[u16]) -> (r: Self)
        requires
            words@.len() == 6,
        ensures
            r.fields() == words@.map_values(|w: u16| spec_word_as_i16(w)),
            r == Self::spec_from_words(words@),
    {
        let r = TuningParameters {
            index_offset: word_as_i16(words[0]),
            learning_time_offset_hours: word_as_i16(words[1]),
            learning_time_gain_hours: word_as_i16(words[2]),
            gating_max_duration_minutes: word_as_i16(words[3]),
            std_initial: word_as_i16(words[4]),
            gain_factor: word_as_i16(words[5]),
        };
        proof {
            assert(r.fields() =~= words@.map_values(|w: u16| spec_word_as_i16(w)));
        }
        r
    }

    /// The six data words that set these parameters, in wire order.
    pub fn to_words(&self) -> (r: Vec<u16>)
        ensures
            r@ == self.fields().map_values(|v: i16| spec_i16_as_word(v)),
    {
        let mut words: Vec<u16> = Vec::new();
        words.push(i16_as_word(self.index_offset));
        words.push(i16_as_word(self.learning_time_offset_hours));
        words.push(i16_as_word(self.learning_time_gain_hours));
        words.push(i16_as_word(self.gating_max_duration_minutes));
        words.push(i16_as_word(self.std_initial));
        words.push(i16_as_word(self.gain_factor));
        proof {
            assert(words@ =~= self.fields().map_values(|v: i16| spec_i16_as_word(v)));
        }
        words
    }
}

/// A tuning block survives the trip through its data words.
pub proof fn lemma_tuning_words_round_trip(tuning: TuningParameters)
    ensures
        tuning.fields().map_values(|v: i16| spec_i16_as_word(v)).map_values(
            |w: u16| spec_word_as_i16(w),
        ) == tuning.fields(),
{
    let back = tuning.fields().map_values(|v: i16| spec_i16_as_word(v)).map_values(
        |w: u16| spec_word_as_i16(w),
    );
    assert(back =~= tuning.fields());
}

/// The 32-bit device status register from its two words.
pub fn device_status_from_words(words: &[u16]) -> (r: u32)
    requires
        words@.len() == 2,
    ensures
        r == spec_u32_from_words(words@[0], words@[1]),
{
    u32_from_words(words[0], words[1])
}

/// The eight bytes of the VOC algorithm state from its four words.
pub fn voc_state_from_words(words: &[u16]) -> (r: [u8; 8])
    requires
        words@.len() == 4,
    ensures
        forall|i: int| 0 <= i < 8 ==> r@[i] == #[trigger] data_byte(words@, i),
{
    let r = [
        byte_of_words(words, 0),
        byte_of_words(words, 1),
        byte_of_words(words, 2),
        byte_of_words(words, 3),
        byte_of_words(words, 4),
        byte_of_words(words, 5),
        byte_of_words(words, 6),
        byte_of_words(words, 7),
    ];
    r
}

/// The data-ready flag from the two data bytes of the 0x0202 response: any
/// nonzero second byte reports ready.
pub fn data_ready_from_bytes(bytes: &[u8]) -> (r: bool)
    requires
        bytes@.len() == 2,
    ensures
        r == (bytes@[1] != 0),
{
    bytes[1] != 0
}

/// Signed values travel as their two's complement: a non-negative value is
/// its own word, a negative value `v` is the word `v + 0x10000`, and reading
/// a word back undoes exactly that.
pub proof fn lemma_twos_complement(v: i16, w: u16)
    ensures
        spec_i16_as_word(v) as int == (if v >= 0 {
            v as int
        } else {
            v + 0x10000
        }),
        spec_word_as_i16(w) as int == (if w < 0x8000 {
            w as int
        } else {
            w - 0x10000
        }),
{
}

/// Data bytes of words are taken most significant byte first: byte `2k` is
/// the high byte of word `k` and byte `2k + 1` its low byte.
pub proof fn lemma_data_bytes_big_endian(words: Seq<u16>, k: int)
    requires
        0 <= k < words.len(),
    ensures
        data_byte(words, 2 * k) as int == words[k] / 256,
        data_byte(words, 2 * k + 1) as int == words[k] % 256,
{
    assert((2 * k) / 2 == k && (2 * k) % 2 == 0);
    assert((2 * k + 1) / 2 == k && (2 * k + 1) % 2 == 1);
}

/// A 32-bit value and its two words: the value is the high word times
/// 0x10000 plus the low word.
pub proof fn lemma_u32_words_arithmetic(hi: u16, lo: u16, value: u32)
    ensures
        spec_u32_from_words(hi, lo) as int == hi * 0x10000 + lo,
        (value / 0x10000) as u16 as int == value as int / 0x10000,
        (value % 0x10000) as u16 as int == value as int % 0x10000,
{
}

} // verus!
