use sen5x::c_reference;
use sen5x::conversion::{
    env_value,
    pm_value,
    HUMIDITY_SCALE,
    PM_MASS_SCALE,
    TEMPERATURE_SCALE,
};
use sen5x::crc::{crc8, crc8_word};
use sen5x::driver::{
    read_bytes,
    read_words,
    write_command,
    write_command_with_payload,
    write_command_with_words,
};
use sen5x::legacy_reference;
use sen5x::measurements::{i16_as_word, u32_to_words, word_as_i16};
use sen5x::responses::{
    decode_data_ready,
    decode_measurements,
    decode_sensor_string,
    decode_u32,
    decode_voc_algorithm_state,
    decode_word,
};
use sen5x::wire::{check_crc, decode_bytes, decode_words};
use sen5x::{
    is_env_available,
    is_pm_available,
    FixedPointMeasurements,
    Sen5xDriver,
    Sen5xError,
    SensorString,
    DEFAULT_I2C_ADDRESS,
    ENV_SENTINEL,
    MAX_RESPONSE_WORDS,
    PM_SENTINEL,
};

/// Appends one 2-byte word plus its CRC byte to the wire payload.
fn word(value: u16, payload: &mut Vec<u8>) {
    payload.extend_from_slice(&value.to_be_bytes());
    let crc = crc8(&payload[payload.len() - 2..]);
    payload.push(crc);
}

fn measurements_payload(pm: [u16; 4], env: [i16; 4]) -> Vec<u8> {
    let mut response = Vec::new();
    for &val in &pm {
        word(val, &mut response);
    }
    for &val in &env {
        word(val as u16, &mut response);
    }
    response
}

fn generate_mock_payload() -> Vec<u8> {
    measurements_payload([100u16, 250, 400, 1000], [5000i16, 4000i16, 150i16, 20i16])
}

fn generate_corrupted_payload() -> Vec<u8> {
    let mut response = generate_mock_payload();
    response[2] ^= 0xFF;
    response
}

/// The wire payload of the read-measured-values command, decoded by the
/// library's decoder.
#[test]
fn verify_c_reference_implementation() {
    let response = generate_mock_payload();

    let words = decode_words::<()>(&response).expect("C reference implementation failed to parse payload");
    let c_pm1_0 = words[0];
    let c_pm2_5 = words[1];
    let c_humidity = words[4] as i16;
    let c_temp = words[5] as i16;

    assert_eq!((c_pm1_0 as f32) / 10.0, 10.0);
    assert_eq!((c_pm2_5 as f32) / 10.0, 25.0);
    assert_eq!((c_humidity as f32) / 100.0, 50.0);
    assert_eq!((c_temp as f32) / 200.0, 20.0);
}

/// A payload with a corrupted CRC byte, rejected by the library's decoder.
#[test]
fn verify_c_reference_rejects_bad_crc() {
    let response = generate_corrupted_payload();
    let result = decode_words::<()>(&response);
    assert!(
        result.is_err(),
        "C reference driver unexpectedly accepted corrupted CRC"
    );
}

#[test]
fn oversized_write_payload_is_rejected_before_i2c() {
    let words = [0u16; MAX_RESPONSE_WORDS + 1];
    let result = write_command_with_words::<()>([0, 0], &words);
    assert!(matches!(result, Err(Sen5xError::InvalidArgument)));
}

#[test]
fn oversized_and_odd_write_payloads_are_rejected_before_i2c() {
    let oversized = [0u8; MAX_RESPONSE_WORDS * 2 + 2];
    let odd = [0u8; 1];

    let oversized_result = write_command_with_payload::<()>([0, 0], &oversized);
    let odd_result = write_command_with_payload::<()>([0, 0], &odd);

    assert!(matches!(oversized_result, Err(Sen5xError::InvalidArgument)));
    assert!(matches!(odd_result, Err(Sen5xError::InvalidArgument)));
}

#[test]
fn invalid_read_sizes_are_rejected_before_i2c() {
    let odd = read_bytes::<()>([0, 0], 0, 1);
    let oversized_bytes = read_bytes::<()>([0, 0], 0, MAX_RESPONSE_WORDS * 2 + 2);
    let oversized_words = read_words::<()>([0, 0], 0, MAX_RESPONSE_WORDS + 1);

    assert!(matches!(odd, Err(Sen5xError::InvalidArgument)));
    assert!(matches!(oversized_bytes, Err(Sen5xError::InvalidArgument)));
    assert!(matches!(oversized_words, Err(Sen5xError::InvalidArgument)));
}

#[test]
fn crc8_matches_the_datasheet_example() {
    assert_eq!(crc8(&[0xBE, 0xEF]), 0x92);
    assert_eq!(crc8_word(0xBE, 0xEF), 0x92);
    assert_eq!(crc8(&[]), 0xFF);
}

#[test]
fn largest_valid_sizes_are_accepted() {
    let words = [0u16; MAX_RESPONSE_WORDS];
    let t = write_command_with_words::<()>([0x60, 0xB2], &words).unwrap();
    assert_eq!(t.write.len(), 2 + 3 * MAX_RESPONSE_WORDS);
    assert_eq!(t.read_len, 0);

    let t = read_bytes::<()>([0xD0, 0x14], 50_000, MAX_RESPONSE_WORDS * 2).unwrap();
    assert_eq!(t.read_len, 48);
    let t = read_words::<()>([0x03, 0xC4], 20_000, MAX_RESPONSE_WORDS).unwrap();
    assert_eq!(t.read_len, 48);
    assert_eq!(t.delay_us, Some(20_000));

    let bare = write_command([0xD3, 0x04]);
    assert_eq!(bare.write, vec![0xD3, 0x04]);
    assert_eq!(bare.delay_us, None);
}

#[test]
fn written_words_are_read_back_unchanged() {
    let words = [0x0000u16, 0xFFFF, 0x1234, 0x8000, 0x7FFF];
    let frame = write_command_with_words::<()>([0x60, 0xD0], &words).unwrap().write;
    let decoded = decode_words::<()>(&frame[2..]).unwrap();
    assert_eq!(decoded, words.to_vec());

    let bytes = [0xDE, 0xAD, 0xBE, 0xEF];
    let frame = write_command_with_payload::<()>([0x61, 0x81], &bytes).unwrap().write;
    assert_eq!(decode_bytes::<()>(&frame[2..]).unwrap(), bytes.to_vec());
}

#[test]
fn any_corrupted_byte_is_rejected() {
    let words = [0x0102u16, 0xBEEF];
    let frame = write_command_with_words::<()>([0x00, 0x00], &words).unwrap().write;
    let response = frame[2..].to_vec();
    for i in 0..response.len() {
        let mut corrupted = response.clone();
        corrupted[i] ^= 0x01;
        assert!(matches!(decode_words::<()>(&corrupted), Err(Sen5xError::Crc)));
        assert!(matches!(decode_bytes::<()>(&corrupted), Err(Sen5xError::Crc)));
    }
}

#[test]
fn trailing_partial_chunk_is_ignored() {
    let mut response = Vec::new();
    word(0x1234, &mut response);
    response.push(0xAA);
    assert_eq!(decode_words::<()>(&response).unwrap(), vec![0x1234]);
    assert_eq!(decode_words::<()>(&[]).unwrap(), Vec::<u16>::new());
}

#[test]
fn sentinels_only_apply_to_their_own_channel_type() {
    assert!(!is_pm_available(PM_SENTINEL));
    assert!(!is_env_available(ENV_SENTINEL));
    assert!(is_pm_available(0x7FFF));
    assert!(is_env_available(-1));
    assert_eq!(pm_value(0x7FFF), Some(0x7FFF));
    assert_eq!(env_value(-1), Some(-1));
    assert_eq!(pm_value(0xFFFF), None);
    assert_eq!(env_value(0x7FFF), None);

    let raw_humidity = word_as_i16(0xFFFF);
    assert_eq!(raw_humidity, -1);
    let scaled = env_value(raw_humidity).map(|r| f32::from(r) / f32::from(HUMIDITY_SCALE));
    assert_eq!(scaled, Some(-0.01));
    let scaled = env_value(raw_humidity).map(|r| f32::from(r) / f32::from(TEMPERATURE_SCALE));
    assert_eq!(scaled, Some(-0.005));
    let scaled = pm_value(0x7FFF).map(|r| f32::from(r) / f32::from(PM_MASS_SCALE));
    assert_eq!(scaled, Some(3276.7));
}

#[test]
fn mixed_sentinels_and_edge_values_are_classified() {
    let m = FixedPointMeasurements::from_words(&[0x7FFF, 0xFFFF, 0, 1000, 0xFFFF, 0x7FFF, 0xFFFF, 20]);
    assert_eq!(m.pm1_0, Some(0x7FFF));
    assert_eq!(m.pm2_5, None);
    assert_eq!(m.pm4_0, Some(0));
    assert_eq!(m.pm10_0, Some(1000));
    assert_eq!(m.humidity, Some(-1));
    assert_eq!(m.temperature, None);
    assert_eq!(m.voc_index, Some(-1));
    assert_eq!(m.nox_index, Some(20));
}

#[test]
fn signed_and_split_words_round_trip() {
    for v in [i16::MIN, -100, -1, 0, 1, 0x7FFF] {
        assert_eq!(word_as_i16(i16_as_word(v)), v);
        assert_eq!(i16_as_word(v), v as u16);
    }
    assert_eq!(word_as_i16(0x8000), i16::MIN);
    assert_eq!(u32_to_words(0x0102_0304), (0x0102, 0x0304));
    assert_eq!(sen5x::measurements::u32_from_words(0xFFFF, 0xFFFF), u32::MAX);
}

#[test]
fn sensor_string_stops_at_first_nul() {
    let mut bytes = [0u8; 32];
    bytes[..5].copy_from_slice(b"SEN55");
    bytes[6] = b'X';
    let s = SensorString::from_bytes(bytes);
    assert_eq!(s.len(), 5);
    assert!(!s.is_empty());
    assert_eq!(s.as_bytes(), b"SEN55");

    let full = SensorString::from_bytes([b'A'; 32]);
    assert_eq!(full.len(), 32);
    assert_eq!(full.as_bytes(), &[b'A'; 32][..]);

    let empty = SensorString::from_bytes([0u8; 32]);
    assert!(empty.is_empty());
    assert_eq!(empty.as_str(), Ok(""));

    let mut invalid = [0u8; 32];
    invalid[0] = 0xFF;
    let s = SensorString::from_bytes(invalid);
    assert!(s.as_str().is_err());
    assert_eq!(s.as_bytes(), &[0xFF]);
}

#[test]
fn driver_keeps_bus_delay_and_address() {
    let driver = Sen5xDriver::new(7u32, 9u64);
    assert_eq!(driver.address(), DEFAULT_I2C_ADDRESS);
    assert_eq!(driver.address(), 0x69);
    assert_eq!(driver.destroy(), (7, 9));

    let mut driver = Sen5xDriver::new_with_address(1u8, 2u8, 0x42);
    assert_eq!(driver.address(), 0x42);
    {
        let (address, bus, delay) = driver.bus();
        assert_eq!(address, 0x42);
        *bus = 10;
        *delay = 20;
    }
    assert_eq!(driver.address(), 0x42);
    assert_eq!(driver.destroy(), (10, 20));

    assert!(check_crc::<()>(&[0xBE, 0xEF], 0x92).is_ok());
    assert!(matches!(check_crc::<()>(&[0xBE, 0xEF], 0x93), Err(Sen5xError::Crc)));
}

#[test]
fn c_driver_status_codes_map_to_results() {
    assert_eq!(c_reference::status_to_result(0), Ok(()));
    assert_eq!(
        c_reference::status_to_result(-1),
        Err(c_reference::Sen5xError::DriverError(-1))
    );
    assert_eq!(
        legacy_reference::status_to_result(0x1234),
        Err(legacy_reference::Sen5xError::DriverError(0x1234))
    );
    assert_eq!(legacy_reference::status_to_result(0), Ok(()));
    let _ = c_reference::Sen5xDriver::new();
    let _ = legacy_reference::Sen5xDriver::new();
    let _: c_reference::Sen5xDriver = Default::default();
}

#[test]
fn bus_errors_are_wrapped() {
    let e: Sen5xError<u8> = Sen5xError::from(3u8);
    assert_eq!(e, Sen5xError::I2c(3));
}

#[test]
fn whole_responses_decode_to_command_results() {
    let m = decode_measurements::<()>(&generate_mock_payload()).unwrap();
    assert_eq!(m.pm1_0, Some(100));
    assert_eq!(m.humidity, Some(5000));
    assert_eq!(m.nox_index, Some(20));
    assert!(matches!(
        decode_measurements::<()>(&generate_corrupted_payload()),
        Err(Sen5xError::Crc)
    ));

    let mut status = Vec::new();
    word(0x0001, &mut status);
    word(0x0203, &mut status);
    assert_eq!(decode_u32::<()>(&status), Ok(0x0001_0203));
    status[5] ^= 0x10;
    assert!(matches!(decode_u32::<()>(&status), Err(Sen5xError::Crc)));

    let mut one = Vec::new();
    word(3333, &mut one);
    assert_eq!(decode_word::<()>(&one), Ok(3333));
    let mut ready = Vec::new();
    word(0x0100, &mut ready);
    assert_eq!(decode_data_ready::<()>(&ready), Ok(false));
    let mut ready = Vec::new();
    word(0x0002, &mut ready);
    assert_eq!(decode_data_ready::<()>(&ready), Ok(true));

    let state = [0xDE, 0xAD, 0xBE, 0xEF, 0x01, 0x02, 0x03, 0x04];
    let mut payload = Vec::new();
    for chunk in state.chunks_exact(2) {
        word(u16::from_be_bytes([chunk[0], chunk[1]]), &mut payload);
    }
    assert_eq!(decode_voc_algorithm_state::<()>(&payload), Ok(state));

    let mut text = Vec::new();
    let mut padded = [0u8; 32];
    padded[..5].copy_from_slice(b"SEN54");
    for chunk in padded.chunks_exact(2) {
        word(u16::from_be_bytes([chunk[0], chunk[1]]), &mut text);
    }
    let s = decode_sensor_string::<()>(&text).unwrap();
    assert_eq!(s.as_str(), Ok("SEN54"));
    text[47] ^= 0xFF;
    assert!(matches!(decode_sensor_string::<()>(&text), Err(Sen5xError::Crc)));
}

#[test]
fn invalid_utf8_reports_the_standard_error() {
    let mut bytes = [0u8; 32];
    bytes[..4].copy_from_slice(&[b'S', b'E', 0xC3, b'N']);
    let s = SensorString::from_bytes(bytes);
    let expected = std::str::from_utf8(&[b'S', b'E', 0xC3, b'N']).unwrap_err();
    let e = s.as_str().unwrap_err();
    assert_eq!(e, expected);
    assert_eq!(e.valid_up_to(), 2);
}
