use sen5x::conversion::{HUMIDITY_SCALE, INDEX_SCALE, PM_MASS_SCALE, TEMPERATURE_SCALE};
use sen5x::driver::{Command, DELAY_200MS_US, DELAY_20MS_US, DELAY_50MS_US};
use sen5x::measurements::{
    data_ready_from_bytes,
    device_status_from_words,
    u32_from_words,
    voc_state_from_words,
};
use sen5x::requests::{
    set_fan_auto_cleaning_interval,
    set_nox_algorithm_tuning_parameters,
    set_rht_acceleration_mode,
    set_temperature_offset_parameters,
    set_voc_algorithm_state,
    set_voc_algorithm_tuning_parameters,
    set_warm_start_parameter,
};
use sen5x::wire::{decode_bytes, decode_words};
use sen5x::{
    FixedPointMeasurements,
    Request,
    Sen5xError,
    Sen5xPmMeasurements,
    Sen5xRawMeasurements,
    Sen5xVersion,
    SensorString,
    TemperatureOffsetParameters,
    TuningParameters,
};

fn crc8_of(data: &[u8]) -> u8 {
    let mut crc: u8 = 0xFF;
    for &byte in data {
        crc ^= byte;
        for _ in 0..8 {
            if crc & 0x80 != 0 {
                crc = (crc << 1) ^ 0x31;
            } else {
                crc <<= 1;
            }
        }
    }
    crc
}

/// Appends one 2-byte word plus its CRC byte to the response payload.
fn word(value: u16, payload: &mut Vec<u8>) {
    payload.extend_from_slice(&value.to_be_bytes());
    let crc = crc8_of(&payload[payload.len() - 2..]);
    payload.push(crc);
}

/// Builds the 24-byte wire response of the 0x03C4 read-measured-values command.
fn measurements_payload() -> Vec<u8> {
    let mut payload = Vec::new();
    for value in [100u16, 250, 400, 1000] {
        word(value, &mut payload);
    }
    for value in [5000i16, 4000i16, 150i16, 20i16] {
        word(value as u16, &mut payload);
    }
    payload
}

/// Builds the 48-byte wire response of the 0xD014/0xD033 string commands.
fn string_payload(text: &str) -> Vec<u8> {
    let mut padded = [0u8; 32];
    padded[..text.len()].copy_from_slice(text.as_bytes());

    let mut payload = Vec::new();
    for chunk in padded.chunks_exact(2) {
        word(u16::from_be_bytes([chunk[0], chunk[1]]), &mut payload);
    }
    payload
}

/// Builds the exact write frame (command + words + CRCs) of a set command.
fn set_frame(command: [u8; 2], words: &[u16]) -> Vec<u8> {
    let mut frame = vec![command[0], command[1]];
    for &w in words {
        word(w, &mut frame);
    }
    frame
}

fn decode(payload: &[u8]) -> Vec<u16> {
    decode_words::<()>(payload).expect("decoding failed")
}

fn pm(raw: Option<u16>) -> Option<f32> {
    raw.map(|r| f32::from(r) / f32::from(PM_MASS_SCALE))
}

fn scaled(raw: Option<i16>, scale: u16) -> Option<f32> {
    raw.map(|r| f32::from(r) / f32::from(scale))
}

fn read_measurements(payload: &[u8]) -> Result<FixedPointMeasurements, Sen5xError<()>> {
    let words = decode_words::<()>(payload)?;
    Ok(FixedPointMeasurements::from_words(&words))
}

#[test]
fn read_measurements_parses_and_scales_all_values() {
    let t = Request::ReadMeasurements.transaction();
    let readings = read_measurements(&measurements_payload()).expect("read_measurements failed");

    assert_eq!(pm(readings.pm1_0), Some(10.0));
    assert_eq!(pm(readings.pm2_5), Some(25.0));
    assert_eq!(pm(readings.pm4_0), Some(40.0));
    assert_eq!(pm(readings.pm10_0), Some(100.0));
    assert_eq!(scaled(readings.humidity, HUMIDITY_SCALE), Some(50.0));
    assert_eq!(scaled(readings.temperature, TEMPERATURE_SCALE), Some(20.0));
    assert_eq!(scaled(readings.voc_index, INDEX_SCALE), Some(15.0));
    assert_eq!(scaled(readings.nox_index, INDEX_SCALE), Some(2.0));

    // Exactly the 24 wire bytes the sensor returns are clocked out, after
    // the command and the mandated 20 ms.
    assert_eq!(t.write, vec![0x03, 0xC4]);
    assert_eq!(t.read_len, 24);
    assert_eq!(t.delay_us, Some(20_000));
}

#[test]
fn read_measurements_marks_unsupported_fields_as_none() {
    let mut payload = Vec::new();
    for value in [100u16, 250, 400, 1000] {
        word(value, &mut payload);
    }
    for value in [5000i16, 4000i16, 0x7FFFi16, 0x7FFFi16] {
        word(value as u16, &mut payload);
    }

    let readings = read_measurements(&payload).expect("read_measurements failed");

    assert_eq!(readings.voc_index, None);
    assert_eq!(readings.nox_index, None);
}

#[test]
fn read_measurements_marks_pm_sentinel_as_none() {
    let mut payload = Vec::new();
    for value in [0xFFFFu16, 250, 400, 1000] {
        word(value, &mut payload);
    }
    for value in [5000i16, 4000i16, 150i16, 20i16] {
        word(value as u16, &mut payload);
    }

    let readings = read_measurements(&payload).expect("read_measurements failed");

    assert_eq!(readings.pm1_0, None);
    assert_eq!(pm(readings.pm2_5), Some(25.0));
    assert_eq!(pm(readings.pm4_0), Some(40.0));
    assert_eq!(pm(readings.pm10_0), Some(100.0));
    assert_eq!(scaled(readings.humidity, HUMIDITY_SCALE), Some(50.0));
    assert_eq!(scaled(readings.temperature, TEMPERATURE_SCALE), Some(20.0));
    assert_eq!(scaled(readings.voc_index, INDEX_SCALE), Some(15.0));
    assert_eq!(scaled(readings.nox_index, INDEX_SCALE), Some(2.0));
}

#[test]
fn read_measurements_handles_negative_temperature() {
    let mut payload = Vec::new();
    for value in [100u16, 250, 400, 1000] {
        word(value, &mut payload);
    }
    for value in [5000i16, -100i16, 150i16, 20i16] {
        word(value as u16, &mut payload);
    }

    let readings = read_measurements(&payload).expect("read_measurements failed");

    assert_eq!(scaled(readings.temperature, TEMPERATURE_SCALE), Some(-0.5));
    assert_eq!(scaled(readings.humidity, HUMIDITY_SCALE), Some(50.0));
}

#[test]
fn read_measurements_all_sentinels_yield_none() {
    let mut payload = Vec::new();
    for value in [0xFFFFu16; 4] {
        word(value, &mut payload);
    }
    for value in [0x7FFFi16; 4] {
        word(value as u16, &mut payload);
    }

    let readings = read_measurements(&payload).expect("read_measurements failed");

    assert_eq!(readings.pm1_0, None);
    assert_eq!(readings.pm2_5, None);
    assert_eq!(readings.pm4_0, None);
    assert_eq!(readings.pm10_0, None);
    assert_eq!(readings.humidity, None);
    assert_eq!(readings.temperature, None);
    assert_eq!(readings.voc_index, None);
    assert_eq!(readings.nox_index, None);
}

#[test]
fn read_measurements_rejects_corrupted_crc() {
    let mut payload = measurements_payload();
    payload[2] ^= 0xFF; // corrupt the CRC of the first PM1.0 word

    let result = read_measurements(&payload);

    assert!(matches!(result, Err(Sen5xError::Crc)));
}

#[test]
fn read_measured_raw_values_parses_unscaled_ticks() {
    let mut payload = Vec::new();
    word(5000u16, &mut payload);
    word(4000u16, &mut payload);
    word(150u16, &mut payload);
    word(20u16, &mut payload);

    let raw = Sen5xRawMeasurements::from_words(&decode(&payload));
    assert_eq!(raw.humidity, 5000);
    assert_eq!(raw.temperature, 4000);
    assert_eq!(raw.voc, 150);
    assert_eq!(raw.nox, 20);

    let t = Request::ReadMeasuredRawValues.transaction();
    assert_eq!(t.write, vec![0x03, 0xD2]);
    assert_eq!(t.read_len, 12);
    assert_eq!(t.delay_us, Some(20_000));
}

#[test]
fn read_measured_pm_values_parses_all_words() {
    let mut payload = Vec::new();
    for value in [100u16, 250, 400, 1000, 50, 120, 300, 500, 900, 3200] {
        word(value, &mut payload);
    }

    let pm = Sen5xPmMeasurements::from_words(&decode(&payload));
    assert_eq!(pm.mass_pm1_0, 100);
    assert_eq!(pm.mass_pm2_5, 250);
    assert_eq!(pm.mass_pm4_0, 400);
    assert_eq!(pm.mass_pm10_0, 1000);
    assert_eq!(pm.number_pm0_5, 50);
    assert_eq!(pm.number_pm1_0, 120);
    assert_eq!(pm.number_pm2_5, 300);
    assert_eq!(pm.number_pm4_0, 500);
    assert_eq!(pm.number_pm10_0, 900);
    assert_eq!(pm.typical_particle_size, 3200);

    let t = Request::ReadMeasuredPmValues.transaction();
    assert_eq!(t.write, vec![0x04, 0x13]);
    assert_eq!(t.read_len, 30);
    assert_eq!(t.delay_us, Some(20_000));
}

#[test]
fn get_version_parses_all_fields() {
    let mut payload = Vec::new();
    word(0x0102, &mut payload); // firmware 1.2
    word(0x0003, &mut payload); // debug off, hardware 3
    word(0x0004, &mut payload); // hardware minor 0, protocol 4
    word(0x0500, &mut payload); // protocol 5, unused byte

    let version = Sen5xVersion::from_words(&decode(&payload));
    assert_eq!(version.firmware_major, 1);
    assert_eq!(version.firmware_minor, 2);
    assert!(!version.firmware_debug);
    assert_eq!(version.hardware_major, 3);
    assert_eq!(version.hardware_minor, 0);
    assert_eq!(version.protocol_major, 4);
    assert_eq!(version.protocol_minor, 5);

    let t = Request::GetVersion.transaction();
    assert_eq!(t.write, vec![0xD1, 0x00]);
    assert_eq!(t.read_len, 12);
    assert_eq!(t.delay_us, Some(20_000));
}

#[test]
fn read_and_clear_device_status_returns_full_u32() {
    let mut payload = Vec::new();
    word(0x0001, &mut payload);
    word(0x0203, &mut payload);

    let status = device_status_from_words(&decode(&payload));
    assert_eq!(status, 0x0001_0203);

    let t = Request::ReadAndClearDeviceStatus.transaction();
    assert_eq!(t.write, vec![0xD2, 0x10]);
    assert_eq!(t.read_len, 6);
    assert_eq!(t.delay_us, Some(20_000));
}

#[test]
fn read_device_status_returns_full_u32() {
    let mut payload = Vec::new();
    word(0x0001, &mut payload);
    word(0x0203, &mut payload);

    let status = device_status_from_words(&decode(&payload));
    assert_eq!(status, 0x0001_0203);

    let t = Request::ReadDeviceStatus.transaction();
    assert_eq!(t.write, vec![0xD2, 0x06]);
    assert_eq!(t.read_len, 6);
    assert_eq!(t.delay_us, Some(20_000));
}

fn read_string(payload: &[u8]) -> SensorString {
    let bytes = decode_bytes::<()>(payload).expect("decoding failed");
    let bytes: [u8; 32] = bytes.try_into().expect("32 data bytes");
    SensorString::from_bytes(bytes)
}

#[test]
fn read_product_name_returns_sensor_string() {
    let name = read_string(&string_payload("SEN55"));
    assert_eq!(name.as_str(), Ok("SEN55"));

    let t = Request::ReadProductName.transaction();
    assert_eq!(t.write, vec![0xD0, 0x14]);
    assert_eq!(t.read_len, 48);
    assert_eq!(t.delay_us, Some(50_000));
}

#[test]
fn read_serial_number_returns_sensor_string() {
    let serial = read_string(&string_payload("123456789"));
    assert_eq!(serial.as_str(), Ok("123456789"));

    let t = Request::ReadSerialNumber.transaction();
    assert_eq!(t.write, vec![0xD0, 0x33]);
    assert_eq!(t.read_len, 48);
    assert_eq!(t.delay_us, Some(50_000));
}

#[test]
fn read_data_ready_polls_the_flag() {
    let t = Request::ReadDataReady.transaction();
    assert_eq!(t.write, vec![0x02, 0x02]);
    assert_eq!(t.delay_us, Some(20_000));
    assert_eq!(t.read_len, 3);

    let mut ready_payload = Vec::new();
    word(0x0001, &mut ready_payload);
    let bytes = decode_bytes::<()>(&ready_payload).expect("read failed");
    assert!(data_ready_from_bytes(&bytes));

    let mut not_ready_payload = Vec::new();
    word(0x0000, &mut not_ready_payload);
    let bytes = decode_bytes::<()>(&not_ready_payload).expect("read failed");
    assert!(!data_ready_from_bytes(&bytes));
}

#[test]
fn request_data_ready_sends_command_without_delay() {
    let requests = [
        Request::RequestDataReady,
        Request::DeviceReset,
        Request::StartMeasurement,
        Request::StopMeasurement,
    ];
    let transactions: Vec<_> = requests.iter().map(|r| r.transaction()).collect();

    let commands: Vec<Vec<u8>> = transactions.iter().map(|t| t.write.clone()).collect();
    assert_eq!(
        commands,
        vec![
            vec![0x02, 0x02],
            vec![0xD3, 0x04],
            vec![0x00, 0x21],
            vec![0x01, 0x04],
        ]
    );
    let delays: Vec<u32> = transactions.iter().filter_map(|t| t.delay_us).collect();
    assert_eq!(delays, vec![200_000, 50_000, 200_000]);
    assert!(transactions.iter().all(|t| t.read_len == 0));
}

#[test]
fn start_fan_cleaning_sends_command() {
    let t = Request::StartFanCleaning.transaction();
    assert_eq!(t.write, vec![0x56, 0x07]);
    assert_eq!(t.delay_us, Some(20_000));
}

#[test]
fn start_measurement_without_pm_sends_command() {
    let t = Request::StartMeasurementWithoutPm.transaction();
    assert_eq!(t.write, vec![0x00, 0x37]);
    assert_eq!(t.delay_us, Some(50_000));
}

#[test]
fn set_and_get_temperature_offset_parameters() {
    let t = set_temperature_offset_parameters(-100, 50, 300);
    assert_eq!(t.write, set_frame([0x60, 0xB2], &[(-100i16) as u16, 50, 300]));
    assert_eq!(t.delay_us, Some(20_000));

    let mut payload = Vec::new();
    word((-100i16) as u16, &mut payload);
    word(50u16, &mut payload);
    word(300u16, &mut payload);

    let params = TemperatureOffsetParameters::from_words(&decode(&payload));
    assert_eq!(params.temp_offset, -100);
    assert_eq!(params.slope, 50);
    assert_eq!(params.time_constant, 300);

    let t = Request::GetTemperatureOffsetParameters.transaction();
    assert_eq!(t.write, vec![0x60, 0xB2]);
    assert_eq!(t.read_len, 9);
    assert_eq!(t.delay_us, Some(20_000));
}

#[test]
fn set_and_get_warm_start_parameter() {
    let t = set_warm_start_parameter(3333);
    assert_eq!(t.write, set_frame([0x60, 0xC6], &[3333]));
    assert_eq!(t.delay_us, Some(20_000));

    let mut payload = Vec::new();
    word(3333u16, &mut payload);
    assert_eq!(decode(&payload)[0], 3333);

    let t = Request::GetWarmStartParameter.transaction();
    assert_eq!(t.write, vec![0x60, 0xC6]);
    assert_eq!(t.read_len, 3);
    assert_eq!(t.delay_us, Some(20_000));
}

fn tuning_params() -> TuningParameters {
    TuningParameters {
        index_offset: -100,
        learning_time_offset_hours: 12,
        learning_time_gain_hours: 24,
        gating_max_duration_minutes: 180,
        std_initial: 50,
        gain_factor: 230,
    }
}

fn tuning_words(params: &TuningParameters) -> [u16; 6] {
    [
        params.index_offset as u16,
        params.learning_time_offset_hours as u16,
        params.learning_time_gain_hours as u16,
        params.gating_max_duration_minutes as u16,
        params.std_initial as u16,
        params.gain_factor as u16,
    ]
}

#[test]
fn set_and_get_voc_algorithm_tuning_parameters() {
    let params = tuning_params();
    let t = set_voc_algorithm_tuning_parameters(params);
    assert_eq!(t.write, set_frame([0x60, 0xD0], &tuning_words(&params)));
    assert_eq!(t.delay_us, Some(20_000));

    let mut payload = Vec::new();
    for &w in &tuning_words(&params) {
        word(w, &mut payload);
    }
    assert_eq!(TuningParameters::from_words(&decode(&payload)), params);

    let t = Request::GetVocAlgorithmTuningParameters.transaction();
    assert_eq!(t.write, vec![0x60, 0xD0]);
    assert_eq!(t.read_len, 18);
    assert_eq!(t.delay_us, Some(20_000));
}

#[test]
fn set_and_get_nox_algorithm_tuning_parameters() {
    let params = tuning_params();
    let t = set_nox_algorithm_tuning_parameters(params);
    assert_eq!(t.write, set_frame([0x60, 0xE1], &tuning_words(&params)));
    assert_eq!(t.delay_us, Some(20_000));

    let mut payload = Vec::new();
    for &w in &tuning_words(&params) {
        word(w, &mut payload);
    }
    assert_eq!(TuningParameters::from_words(&decode(&payload)), params);

    let t = Request::GetNoxAlgorithmTuningParameters.transaction();
    assert_eq!(t.write, vec![0x60, 0xE1]);
    assert_eq!(t.read_len, 18);
    assert_eq!(t.delay_us, Some(20_000));
}

#[test]
fn set_and_get_rht_acceleration_mode() {
    let t = set_rht_acceleration_mode(2);
    assert_eq!(t.write, set_frame([0x60, 0xF7], &[2]));
    assert_eq!(t.delay_us, Some(20_000));

    let mut payload = Vec::new();
    word(2u16, &mut payload);
    assert_eq!(decode(&payload)[0], 2);

    let t = Request::GetRhtAccelerationMode.transaction();
    assert_eq!(t.write, vec![0x60, 0xF7]);
    assert_eq!(t.read_len, 3);
    assert_eq!(t.delay_us, Some(20_000));
}

#[test]
fn set_and_get_voc_algorithm_state() {
    let state = [0xDE, 0xAD, 0xBE, 0xEF, 0x01, 0x02, 0x03, 0x04];
    let t = set_voc_algorithm_state::<()>(&state).unwrap();
    let mut expected = vec![0x61, 0x81];
    for chunk in state.chunks_exact(2) {
        word(u16::from_be_bytes([chunk[0], chunk[1]]), &mut expected);
    }
    assert_eq!(t.write, expected);
    assert_eq!(t.delay_us, Some(20_000));

    let mut payload = Vec::new();
    for chunk in state.chunks_exact(2) {
        word(u16::from_be_bytes([chunk[0], chunk[1]]), &mut payload);
    }
    assert_eq!(voc_state_from_words(&decode(&payload)), state);

    let t = Request::GetVocAlgorithmState.transaction();
    assert_eq!(t.write, vec![0x61, 0x81]);
    assert_eq!(t.read_len, 12);
    assert_eq!(t.delay_us, Some(20_000));
}

#[test]
fn set_voc_algorithm_state_rejects_odd_length() {
    let result = set_voc_algorithm_state::<()>(&[1, 2, 3]);
    assert!(matches!(result, Err(Sen5xError::InvalidArgument)));
}

#[test]
fn set_and_get_fan_auto_cleaning_interval() {
    let interval = 0x0102_0304u32;
    let t = set_fan_auto_cleaning_interval(interval);
    assert_eq!(t.write, set_frame([0x80, 0x04], &[(interval >> 16) as u16, interval as u16]));
    assert_eq!(t.delay_us, Some(20_000));

    let mut payload = Vec::new();
    word((interval >> 16) as u16, &mut payload);
    word(interval as u16, &mut payload);
    let words = decode(&payload);
    assert_eq!(u32_from_words(words[0], words[1]), interval);

    let t = Request::GetFanAutoCleaningInterval.transaction();
    assert_eq!(t.write, vec![0x80, 0x04]);
    assert_eq!(t.read_len, 6);
    assert_eq!(t.delay_us, Some(20_000));
}

#[test]
fn command_codes_are_sent_most_significant_byte_first() {
    assert_eq!(Command::DeviceReset.bytes(), [0xD3, 0x04]);
    assert_eq!(Command::FanAutoCleaningInterval.bytes(), [0x80, 0x04]);
    assert_eq!(Command::VocAlgorithmState.bytes(), [0x61, 0x81]);
    assert_eq!(DELAY_20MS_US, 20_000);
    assert_eq!(DELAY_50MS_US, 50_000);
    assert_eq!(DELAY_200MS_US, 200_000);
}
