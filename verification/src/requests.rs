//! The transaction behind each command of the driver: which command it
//! sends, what data words follow, how long it waits, and how many response
//! bytes it reads.
use vstd::prelude::*;
use vstd::pervasive::unreached;
use crate::driver::{
    read_bytes,
    read_words,
    write_command,
    write_command_with_payload,
    write_command_with_words,
    Command,
    Transaction,
    DELAY_200MS_US,
    DELAY_20MS_US,
    DELAY_50MS_US,
};
use crate::error::Sen5xError;
use crate::measurements::{
    data_byte,
    lemma_i16_word_round_trip,
    lemma_tuning_words_round_trip,
    lemma_u32_words_round_trip,
    spec_i16_as_word,
    spec_u32_from_words,
    spec_word_as_i16,
    u32_to_words,
    TemperatureOffsetParameters,
    TuningParameters,
};
use crate::wire::{
    be_word,
    command_frame,
    crcs_valid,
    lemma_bytes_round_trip,
    lemma_words_round_trip,
    payload_fits,
    response_words,
    with_crcs,
    words_to_bytes,
};

verus! {

/// The driver commands that take no argument.
#[derive(Debug, Copy, Clone, PartialEq, Eq, Structural)]
pub enum Request {
    /// Resets the sensor and waits for its reboot.
    DeviceReset,
    /// Reads the product name (a 32-byte string).
    ReadProductName,
    /// Reads the serial number (a 32-byte string).
    ReadSerialNumber,
    /// Reads the 32-bit device status register.
    ReadDeviceStatus,
    /// Starts continuous measurement with PM sensing.
    StartMeasurement,
    /// Starts measurement without the PM fan and laser.
    StartMeasurementWithoutPm,
    /// Stops measurement and waits for the sensor to become idle.
    StopMeasurement,
    /// Sends the data-ready command without reading its response.
    RequestDataReady,
    /// Reads the data-ready flag.
    ReadDataReady,
    /// Reads the measurement block (8 words).
    ReadMeasurements,
    /// Reads the raw humidity, temperature, VOC and NOx ticks (4 words).
    ReadMeasuredRawValues,
    /// Reads the extended PM block (10 words).
    ReadMeasuredPmValues,
    /// Reads the version (4 words).
    GetVersion,
    /// Reads and clears the device status register.
    ReadAndClearDeviceStatus,
    /// Starts the fan cleaning.
    StartFanCleaning,
    /// Reads the temperature offset parameters (3 words).
    GetTemperatureOffsetParameters,
    /// Reads the warm start parameter (1 word).
    GetWarmStartParameter,
    /// Reads the VOC algorithm tuning parameters (6 words).
    GetVocAlgorithmTuningParameters,
    /// Reads the NOx algorithm tuning parameters (6 words).
    GetNoxAlgorithmTuningParameters,
    /// Reads the RH/T acceleration mode (1 word).
    GetRhtAccelerationMode,
    /// Captures the VOC algorithm state (4 words).
    GetVocAlgorithmState,
    /// Reads the fan auto cleaning interval (2 words).
    GetFanAutoCleaningInterval,
}

impl Request {
    /// The command the request sends.
    pub open spec fn spec_command(self) -> Command {
        match self {
            Request::DeviceReset => Command::DeviceReset,
            Request::ReadProductName => Command::ReadProductName,
            Request::ReadSerialNumber => Command::ReadSerialNumber,
            Request::ReadDeviceStatus => Command::ReadDeviceStatus,
            Request::StartMeasurement => Command::StartMeasurement,
            Request::StartMeasurementWithoutPm => Command::StartMeasurementWithoutPm,
            Request::StopMeasurement => Command::StopMeasurement,
            Request::RequestDataReady => Command::ReadDataReady,
            Request::ReadDataReady => Command::ReadDataReady,
            Request::ReadMeasurements => Command::ReadMeasurements,
            Request::ReadMeasuredRawValues => Command::ReadRawMeasurements,
            Request::ReadMeasuredPmValues => Command::ReadPmMeasurements,
            Request::GetVersion => Command::GetVersion,
            Request::ReadAndClearDeviceStatus => Command::ReadAndClearDeviceStatus,
            Request::StartFanCleaning => Command::StartFanCleaning,
            Request::GetTemperatureOffsetParameters => Command::TemperatureOffset,
            Request::GetWarmStartParameter => Command::WarmStart,
            Request::GetVocAlgorithmTuningParameters => Command::VocTuning,
            Request::GetNoxAlgorithmTuningParameters => Command::NoxTuning,
            Request::GetRhtAccelerationMode => Command::RhtAcceleration,
            Request::GetVocAlgorithmState => Command::VocAlgorithmState,
            Request::GetFanAutoCleaningInterval => Command::FanAutoCleaningInterval,
        }
    }

    /// The wait after the command, in microseconds.
    pub open spec fn spec_delay_us(self) -> Option<u32> {
        match self {
            Request::DeviceReset => Some(DELAY_200MS_US),
            Request::StopMeasurement => Some(DELAY_200MS_US),
            Request::ReadProductName => Some(DELAY_50MS_US),
            Request::ReadSerialNumber => Some(DELAY_50MS_US),
            Request::StartMeasurement => Some(DELAY_50MS_US),
            Request::StartMeasurementWithoutPm => Some(DELAY_50MS_US),
            Request::RequestDataReady => None,
            _ => Some(DELAY_20MS_US),
        }
    }

    /// The number of CRC-protected words in the response.
    pub open spec fn spec_response_words(self) -> nat {
        match self {
            Request::ReadProductName => 16,
            Request::ReadSerialNumber => 16,
            Request::ReadDeviceStatus => 2,
            Request::ReadDataReady => 1,
            Request::ReadMeasurements => 8,
            Request::ReadMeasuredRawValues => 4,
            Request::ReadMeasuredPmValues => 10,
            Request::GetVersion => 4,
            Request::ReadAndClearDeviceStatus => 2,
            Request::GetTemperatureOffsetParameters => 3,
            Request::GetWarmStartParameter => 1,
            Request::GetVocAlgorithmTuningParameters => 6,
            Request::GetNoxAlgorithmTuningParameters => 6,
            Request::GetRhtAccelerationMode => 1,
            Request::GetVocAlgorithmState => 4,
            Request::GetFanAutoCleaningInterval => 2,
            _ => 0,
        }
    }

    /// The bus transaction of the request: the bare command, then the wait,
    /// then a read of exactly three bytes per response word.
    pub fn transaction(self) -> (t: Transaction)
        ensures
            t.write@ == self.spec_command().spec_bytes(),
            t.delay_us == self.spec_delay_us(),
            t.read_len == 3 * self.spec_response_words(),
    {
        match self {
            Request::DeviceReset => write_then_wait(Command::DeviceReset, DELAY_200MS_US),
            Request::ReadProductName => read_string32(Command::ReadProductName),
            Request::ReadSerialNumber => read_string32(Command::ReadSerialNumber),
            Request::ReadDeviceStatus => read_words_after_20ms(Command::ReadDeviceStatus, 2),
            Request::StartMeasurement => write_then_wait(Command::StartMeasurement, DELAY_50MS_US),
            Request::StartMeasurementWithoutPm => write_then_wait(
                Command::StartMeasurementWithoutPm,
                DELAY_50MS_US,
            ),
            Request::StopMeasurement => write_then_wait(Command::StopMeasurement, DELAY_200MS_US),
            Request::RequestDataReady => write_command(Command::ReadDataReady.bytes()),
            Request::ReadDataReady => {
                match read_bytes::<()>(Command::ReadDataReady.bytes(), DELAY_20MS_US, 2) {
                    Ok(t) => t,
                    Err(_) => unreached(),
                }
            },
            Request::ReadMeasurements => read_words_after_20ms(Command::ReadMeasurements, 8),
            Request::ReadMeasuredRawValues => read_words_after_20ms(
                Command::ReadRawMeasurements,
                4,
            ),
            Request::ReadMeasuredPmValues => read_words_after_20ms(Command::ReadPmMeasurements, 10),
            Request::GetVersion => read_words_after_20ms(Command::GetVersion, 4),
            Request::ReadAndClearDeviceStatus => read_words_after_20ms(
                Command::ReadAndClearDeviceStatus,
                2,
            ),
            Request::StartFanCleaning => write_then_wait(Command::StartFanCleaning, DELAY_20MS_US),
            Request::GetTemperatureOffsetParameters => read_words_after_20ms(
                Command::TemperatureOffset,
                3,
            ),
            Request::GetWarmStartParameter => read_words_after_20ms(Command::WarmStart, 1),
            Request::GetVocAlgorithmTuningParameters => read_words_after_20ms(
                Command::VocTuning,
                6,
            ),
            Request::GetNoxAlgorithmTuningParameters => read_words_after_20ms(
                Command::NoxTuning,
                6,
            ),
            Request::GetRhtAccelerationMode => read_words_after_20ms(Command::RhtAcceleration, 1),
            Request::GetVocAlgorithmState => read_words_after_20ms(Command::VocAlgorithmState, 4),
            Request::GetFanAutoCleaningInterval => read_words_after_20ms(
                Command::FanAutoCleaningInterval,
                2,
            ),
        }
    }
}

/// A bare command followed by a wait.
fn write_then_wait(command: Command, delay_us: u32) -> (t: Transaction)
    ensures
        t.write@ == command.spec_bytes(),
        t.delay_us == Some(delay_us),
        t.read_len == 0,
{
    let t = write_command(command.bytes());
    Transaction { write: t.write, delay_us: Some(delay_us), read_len: 0 }
}

/// A command, the 20 ms response preparation time, then `n` words.
fn read_words_after_20ms(command: Command, n: usize) -> (t: Transaction)
    requires
        n <= 16,
    ensures
        t.write@ == command.spec_bytes(),
        t.delay_us == Some(DELAY_20MS_US),
        t.read_len == 3 * n,
{
    match read_words::<()>(command.bytes(), DELAY_20MS_US, n) {
        Ok(t) => t,
        Err(_) => unreached(),
    }
}

/// A string command: the command, 50 ms, then 32 data bytes (16 words).
fn read_string32(command: Command) -> (t: Transaction)
    ensures
        t.write@ == command.spec_bytes(),
        t.delay_us == Some(DELAY_50MS_US),
        t.read_len == 48,
{
    match read_bytes::<()>(command.bytes(), DELAY_50MS_US, 32) {
        Ok(t) => t,
        Err(_) => unreached(),
    }
}

/// A set command: the command with its CRC-protected data words, then the
/// 20 ms processing time.
fn set_words(command: Command, words: &[u16]) -> (t: Transaction)
    requires
        words@.len() <= 16,
    ensures
        t.write@ == command_frame(command.spec_bytes(), words_to_bytes(words@)),
        t.delay_us == Some(DELAY_20MS_US),
        t.read_len == 0,
{
    match write_command_with_words::<()>(command.bytes(), words) {
        Ok(t) => Transaction { write: t.write, delay_us: Some(DELAY_20MS_US), read_len: 0 },
        Err(_) => unreached(),
    }
}

/// Sets the temperature offset parameters (0x60B2): the offset, the slope
/// and the time constant as three data words, then 20 ms.
pub fn set_temperature_offset_parameters(temp_offset: i16, slope: i16, time_constant: u16) -> (t:
    Transaction)
    ensures
        t.write@ == command_frame(
            Command::TemperatureOffset.spec_bytes(),
            words_to_bytes(
                seq![spec_i16_as_word(temp_offset), spec_i16_as_word(slope), time_constant],
            ),
        ),
        t.delay_us == Some(DELAY_20MS_US),
        t.read_len == 0,
{
    let params = TemperatureOffsetParameters { temp_offset, slope, time_constant };
    let words = params.to_words();
    set_words(Command::TemperatureOffset, words.as_slice())
}

/// Sets the warm start behavior (0x60C6): 0 = cold start, 1 = warm start.
pub fn set_warm_start_parameter(warm_start: u16) -> (t: Transaction)
    ensures
        t.write@ == command_frame(Command::WarmStart.spec_bytes(), words_to_bytes(seq![warm_start])),
        t.delay_us == Some(DELAY_20MS_US),
        t.read_len == 0,
{
    let mut words: Vec<u16> = Vec::new();
    words.push(warm_start);
    proof {
        assert(words@ =~= seq![warm_start]);
    }
    set_words(Command::WarmStart, words.as_slice())
}

/// Sets the VOC algorithm tuning parameters (0x60D0): the six fields as data
/// words in order, then 20 ms.
pub fn set_voc_algorithm_tuning_parameters(params: TuningParameters) -> (t: Transaction)
    ensures
        t.write@ == command_frame(
            Command::VocTuning.spec_bytes(),
            words_to_bytes(params.fields().map_values(|v: i16| spec_i16_as_word(v))),
        ),
        t.delay_us == Some(DELAY_20MS_US),
        t.read_len == 0,
{
    let words = params.to_words();
    set_words(Command::VocTuning, words.as_slice())
}

/// Sets the NOx algorithm tuning parameters (0x60E1): the six fields as data
/// words in order, then 20 ms.
pub fn set_nox_algorithm_tuning_parameters(params: TuningParameters) -> (t: Transaction)
    ensures
        t.write@ == command_frame(
            Command::NoxTuning.spec_bytes(),
            words_to_bytes(params.fields().map_values(|v: i16| spec_i16_as_word(v))),
        ),
        t.delay_us == Some(DELAY_20MS_US),
        t.read_len == 0,
{
    let words = params.to_words();
    set_words(Command::NoxTuning, words.as_slice())
}

/// Sets the RH/T acceleration mode (0x60F7): 0 = slow, 1 = medium, 2 = fast.
pub fn set_rht_acceleration_mode(mode: u16) -> (t: Transaction)
    ensures
        t.write@ == command_frame(Command::RhtAcceleration.spec_bytes(), words_to_bytes(seq![mode])),
        t.delay_us == Some(DELAY_20MS_US),
        t.read_len == 0,
{
    let mut words: Vec<u16> = Vec::new();
    words.push(mode);
    proof {
        assert(words@ =~= seq![mode]);
    }
    set_words(Command::RhtAcceleration, words.as_slice())
}

/// Restores a previously captured VOC algorithm state (0x6181), then 20 ms.
/// The state must be an even number of bytes, at most 32: each word is
/// CRC-protected on the wire. Other lengths are rejected before any bus
/// access.
pub fn set_voc_algorithm_state<E>(state: &[u8]) -> (r: Result<Transaction, Sen5xError<E>>)
    ensures
        payload_fits(state@) ==> (r matches Ok(t) && t.write@ == command_frame(
            Command::VocAlgorithmState.spec_bytes(),
            state@,
        ) && t.delay_us == Some(DELAY_20MS_US) && t.read_len == 0),
        !payload_fits(state@) ==> r matches Err(Sen5xError::InvalidArgument),
{
    match write_command_with_payload(Command::VocAlgorithmState.bytes(), state) {
        Ok(t) => Ok(Transaction { write: t.write, delay_us: Some(DELAY_20MS_US), read_len: 0 }),
        Err(e) => Err(e),
    }
}

/// Sets the fan auto cleaning interval in seconds (0x8004): the interval as
/// two data words, most significant first, then 20 ms.
pub fn set_fan_auto_cleaning_interval(interval: u32) -> (t: Transaction)
    ensures
        t.write@ == command_frame(
            Command::FanAutoCleaningInterval.spec_bytes(),
            words_to_bytes(seq![(interval / 0x10000) as u16, (interval % 0x10000) as u16]),
        ),
        t.delay_us == Some(DELAY_20MS_US),
        t.read_len == 0,
{
    let (hi, lo) = u32_to_words(interval);
    let mut words: Vec<u16> = Vec::new();
    words.push(hi);
    words.push(lo);
    proof {
        assert(words@ =~= seq![(interval / 0x10000) as u16, (interval % 0x10000) as u16]);
    }
    set_words(Command::FanAutoCleaningInterval, words.as_slice())
}

/// The data words of a set command, echoed back by the sensor as the
/// response of the matching get command, pass every CRC check and decode to
/// the same words.
pub proof fn lemma_set_frame_echo(command: Command, words: Seq<u16>)
    ensures
        command_frame(command.spec_bytes(), words_to_bytes(words)).skip(2) == with_crcs(
            words_to_bytes(words),
        ),
        crcs_valid(with_crcs(words_to_bytes(words))),
        response_words(with_crcs(words_to_bytes(words))) == words,
{
    let f = command_frame(command.spec_bytes(), words_to_bytes(words));
    assert(f.skip(2) =~= with_crcs(words_to_bytes(words)));
    lemma_words_round_trip(words);
}

/// A fan auto cleaning interval that is set is read back unchanged: the data
/// the set command writes after its command, given as the response to the
/// get request, has the length that request reads, passes every CRC check
/// and decodes to the interval.
pub proof fn lemma_fan_interval_set_get(interval: u32)
    ensures
        ({
            let frame = command_frame(
                Command::FanAutoCleaningInterval.spec_bytes(),
                words_to_bytes(seq![(interval / 0x10000) as u16, (interval % 0x10000) as u16]),
            );
            let response = frame.skip(2);
            &&& Request::GetFanAutoCleaningInterval.spec_command()
                == Command::FanAutoCleaningInterval
            &&& response.len() == 3 * Request::GetFanAutoCleaningInterval.spec_response_words()
            &&& crcs_valid(response)
            &&& spec_u32_from_words(response_words(response)[0], response_words(response)[1])
                == interval
        }),
{
    let words = seq![(interval / 0x10000) as u16, (interval % 0x10000) as u16];
    lemma_set_frame_echo(Command::FanAutoCleaningInterval, words);
    lemma_u32_words_round_trip(interval, 0, 0);
}

/// Tuning parameters that are set are read back unchanged: the data the VOC
/// or NOx set command writes after its command, given as the response to
/// the matching get request, has the length that request reads, passes every
/// CRC check and decodes to the same parameters, signs included.
pub proof fn lemma_tuning_set_get(params: TuningParameters)
    ensures
        ({
            let words = params.fields().map_values(|v: i16| spec_i16_as_word(v));
            let voc_frame = command_frame(Command::VocTuning.spec_bytes(), words_to_bytes(words));
            let nox_frame = command_frame(Command::NoxTuning.spec_bytes(), words_to_bytes(words));
            let response = voc_frame.skip(2);
            &&& nox_frame.skip(2) == response
            &&& Request::GetVocAlgorithmTuningParameters.spec_command() == Command::VocTuning
            &&& Request::GetNoxAlgorithmTuningParameters.spec_command() == Command::NoxTuning
            &&& response.len() == 3
                * Request::GetVocAlgorithmTuningParameters.spec_response_words()
            &&& response.len() == 3
                * Request::GetNoxAlgorithmTuningParameters.spec_response_words()
            &&& crcs_valid(response)
            &&& TuningParameters::spec_from_words(response_words(response)) == params
        }),
{
    let words = params.fields().map_values(|v: i16| spec_i16_as_word(v));
    lemma_set_frame_echo(Command::VocTuning, words);
    lemma_set_frame_echo(Command::NoxTuning, words);
    lemma_tuning_words_round_trip(params);
    let back = words.map_values(|w: u16| spec_word_as_i16(w));
    assert(back[0] == params.index_offset);
    assert(back[1] == params.learning_time_offset_hours);
    assert(back[2] == params.learning_time_gain_hours);
    assert(back[3] == params.gating_max_duration_minutes);
    assert(back[4] == params.std_initial);
    assert(back[5] == params.gain_factor);
}

/// Temperature offset parameters that are set are read back unchanged: the
/// data the set command writes after its command, given as the response to
/// the get request, has the length that request reads, passes every CRC
/// check and decodes to the same parameters.
pub proof fn lemma_temperature_offset_set_get(temp_offset: i16, slope: i16, time_constant: u16)
    ensures
        ({
            let words = seq![spec_i16_as_word(temp_offset), spec_i16_as_word(slope), time_constant];
            let frame = command_frame(Command::TemperatureOffset.spec_bytes(), words_to_bytes(words));
            let response = frame.skip(2);
            &&& Request::GetTemperatureOffsetParameters.spec_command()
                == Command::TemperatureOffset
            &&& response.len() == 3
                * Request::GetTemperatureOffsetParameters.spec_response_words()
            &&& crcs_valid(response)
            &&& TemperatureOffsetParameters::spec_from_words(response_words(response))
                == TemperatureOffsetParameters { temp_offset, slope, time_constant }
        }),
{
    let words = seq![spec_i16_as_word(temp_offset), spec_i16_as_word(slope), time_constant];
    lemma_set_frame_echo(Command::TemperatureOffset, words);
    lemma_i16_word_round_trip(temp_offset, 0);
    lemma_i16_word_round_trip(slope, 0);
}

/// A one-word setting (warm start parameter, RH/T acceleration mode) that is
/// set is read back unchanged.
pub proof fn lemma_word_setting_set_get(value: u16)
    ensures
        ({
            let warm = command_frame(Command::WarmStart.spec_bytes(), words_to_bytes(seq![value]));
            let rht = command_frame(
                Command::RhtAcceleration.spec_bytes(),
                words_to_bytes(seq![value]),
            );
            let response = warm.skip(2);
            &&& rht.skip(2) == response
            &&& Request::GetWarmStartParameter.spec_command() == Command::WarmStart
            &&& Request::GetRhtAccelerationMode.spec_command() == Command::RhtAcceleration
            &&& response.len() == 3 * Request::GetWarmStartParameter.spec_response_words()
            &&& response.len() == 3 * Request::GetRhtAccelerationMode.spec_response_words()
            &&& crcs_valid(response)
            &&& response_words(response)[0] == value
        }),
{
    lemma_set_frame_echo(Command::WarmStart, seq![value]);
    lemma_set_frame_echo(Command::RhtAcceleration, seq![value]);
}

/// A VOC algorithm state that is restored is captured back byte for byte:
/// the data the set command writes after its command, given as the response
/// to the get request, passes every CRC check, and the data bytes of its
/// words are the state's bytes. An 8-byte state is exactly as long as the
/// get request reads.
pub proof fn lemma_voc_state_set_get(state: Seq<u8>)
    requires
        state.len() % 2 == 0,
    ensures
        ({
            let frame = command_frame(Command::VocAlgorithmState.spec_bytes(), state);
            let response = frame.skip(2);
            &&& Request::GetVocAlgorithmState.spec_command() == Command::VocAlgorithmState
            &&& state.len() == 8 ==> response.len() == 3
                * Request::GetVocAlgorithmState.spec_response_words()
            &&& crcs_valid(response)
            &&& response_words(response).len() * 2 == state.len()
            &&& forall|i: int|
                0 <= i < state.len() ==> #[trigger] data_byte(response_words(response), i)
                    == state[i]
        }),
{
    let frame = command_frame(Command::VocAlgorithmState.spec_bytes(), state);
    assert(frame.skip(2) =~= with_crcs(state));
    lemma_bytes_round_trip(state);
    let r = with_crcs(state);
    let ws = response_words(r);
    assert forall|i: int| 0 <= i < state.len() implies #[trigger] data_byte(ws, i) == state[i] by {
        let k = i / 2;
        assert((3 * k) / 3 == k && (3 * k) % 3 == 0);
        assert((3 * k + 1) / 3 == k && (3 * k + 1) % 3 == 1);
        assert(ws[k] == be_word(state[2 * k], state[2 * k + 1]));
        assert(i == 2 * k + i % 2);
    }
}

/// The commands that have no response read nothing: a reset, starting or
/// stopping a measurement, sending the data-ready command alone and starting
/// the fan cleaning plan a read of zero bytes; every other request reads a
/// response.
pub proof fn lemma_write_only_requests_read_nothing(r: Request)
    ensures
        (r is DeviceReset || r is StartMeasurement || r is StartMeasurementWithoutPm
            || r is StopMeasurement || r is RequestDataReady || r is StartFanCleaning)
            <==> r.spec_response_words() == 0,
{
}

/// The response length of each reading request, in bytes (three per word):
/// 48 for a string, 24 for the measurements, 30 for the PM block, 12 for the
/// raw values, the version and the VOC state, 18 for a tuning block, 9 for
/// the temperature offset, 6 for the status register and the fan interval,
/// 3 for data ready, warm start and RH/T acceleration.
pub proof fn lemma_request_read_lengths(r: Request)
    ensures
        (r is ReadProductName || r is ReadSerialNumber) ==> 3 * r.spec_response_words() == 48,
        r is ReadMeasurements ==> 3 * r.spec_response_words() == 24,
        r is ReadMeasuredPmValues ==> 3 * r.spec_response_words() == 30,
        (r is ReadMeasuredRawValues || r is GetVersion || r is GetVocAlgorithmState) ==> 3
            * r.spec_response_words() == 12,
        (r is GetVocAlgorithmTuningParameters || r is GetNoxAlgorithmTuningParameters) ==> 3
            * r.spec_response_words() == 18,
        r is GetTemperatureOffsetParameters ==> 3 * r.spec_response_words() == 9,
        (r is ReadDeviceStatus || r is ReadAndClearDeviceStatus || r is GetFanAutoCleaningInterval)
            ==> 3 * r.spec_response_words() == 6,
        (r is ReadDataReady || r is GetWarmStartParameter || r is GetRhtAccelerationMode) ==> 3
            * r.spec_response_words() == 3,
{
}

/// The wait after each request: 200 ms after a reset (the reboot) and after
/// stopping a measurement; 50 ms after starting a measurement (with or
/// without PM) and before reading a string; no wait after sending the
/// data-ready command alone; 20 ms after every other command.
pub proof fn lemma_request_waits(r: Request)
    ensures
        r is DeviceReset ==> r.spec_delay_us() == Some(200_000u32),
        r is StopMeasurement ==> r.spec_delay_us() == Some(200_000u32),
        r is StartMeasurement ==> r.spec_delay_us() == Some(50_000u32),
        r is StartMeasurementWithoutPm ==> r.spec_delay_us() == Some(50_000u32),
        (r is ReadProductName || r is ReadSerialNumber) ==> r.spec_delay_us() == Some(50_000u32),
        r is RequestDataReady ==> r.spec_delay_us() is None,
        !(r is DeviceReset || r is StopMeasurement || r is StartMeasurement
            || r is StartMeasurementWithoutPm || r is ReadProductName || r is ReadSerialNumber
            || r is RequestDataReady) ==> r.spec_delay_us() == Some(20_000u32),
{
}

/// The command bytes each request writes, most significant byte first.
pub proof fn lemma_request_commands(r: Request)
    ensures
        r is DeviceReset ==> r.spec_command().spec_bytes() == seq![0xD3u8, 0x04u8],
        r is ReadProductName ==> r.spec_command().spec_bytes() == seq![0xD0u8, 0x14u8],
        r is ReadSerialNumber ==> r.spec_command().spec_bytes() == seq![0xD0u8, 0x33u8],
        r is ReadDeviceStatus ==> r.spec_command().spec_bytes() == seq![0xD2u8, 0x06u8],
        r is StartMeasurement ==> r.spec_command().spec_bytes() == seq![0x00u8, 0x21u8],
        r is StartMeasurementWithoutPm ==> r.spec_command().spec_bytes() == seq![0x00u8, 0x37u8],
        r is StopMeasurement ==> r.spec_command().spec_bytes() == seq![0x01u8, 0x04u8],
        (r is RequestDataReady || r is ReadDataReady) ==> r.spec_command().spec_bytes() == seq![
            0x02u8,
            0x02u8,
        ],
        r is ReadMeasurements ==> r.spec_command().spec_bytes() == seq![0x03u8, 0xC4u8],
        r is ReadMeasuredRawValues ==> r.spec_command().spec_bytes() == seq![0x03u8, 0xD2u8],
        r is ReadMeasuredPmValues ==> r.spec_command().spec_bytes() == seq![0x04u8, 0x13u8],
        r is GetVersion ==> r.spec_command().spec_bytes() == seq![0xD1u8, 0x00u8],
        r is ReadAndClearDeviceStatus ==> r.spec_command().spec_bytes() == seq![0xD2u8, 0x10u8],
        r is StartFanCleaning ==> r.spec_command().spec_bytes() == seq![0x56u8, 0x07u8],
        r is GetTemperatureOffsetParameters ==> r.spec_command().spec_bytes() == seq![
            0x60u8,
            0xB2u8,
        ],
        r is GetWarmStartParameter ==> r.spec_command().spec_bytes() == seq![0x60u8, 0xC6u8],
        r is GetVocAlgorithmTuningParameters ==> r.spec_command().spec_bytes() == seq![
            0x60u8,
            0xD0u8,
        ],
        r is GetNoxAlgorithmTuningParameters ==> r.spec_command().spec_bytes() == seq![
            0x60u8,
            0xE1u8,
        ],
        r is GetRhtAccelerationMode ==> r.spec_command().spec_bytes() == seq![0x60u8, 0xF7u8],
        r is GetVocAlgorithmState ==> r.spec_command().spec_bytes() == seq![0x61u8, 0x81u8],
        r is GetFanAutoCleaningInterval ==> r.spec_command().spec_bytes() == seq![0x80u8, 0x04u8],
{
}

} // verus!
