use scd30_monitor::checksum::checksum;
use scd30_monitor::scd30::{
    decode_data_ready, decode_firmware_version, decode_group, decode_measurement, decode_words,
    encode_word, Command, Error, SensorData, DEFAULT_ADDRESS, GROUP_LEN,
};

/// The measurement response printed in the sensor's interface description:
/// 439 ppm, 27.2 degrees, 48.8 percent.
const VENDOR_RESPONSE: [u8; 18] = [
    0x43, 0xdb, 0xcb, 0x8c, 0x2e, 0x8f, 0x41, 0xd9, 0x70, 0xe7, 0xff, 0xf5, 0x42, 0x43, 0xbf, 0x3a,
    0x1b, 0x74,
];

fn response_for(co2: f32, temperature: f32, humidity: f32) -> Vec<u8> {
    let mut response = Vec::new();
    for value in [co2, temperature, humidity] {
        let bytes = value.to_bits().to_be_bytes();
        response.extend_from_slice(&[bytes[0], bytes[1], checksum(&bytes[0..2])]);
        response.extend_from_slice(&[bytes[2], bytes[3], checksum(&bytes[2..4])]);
    }
    response
}

#[test]
fn sensor_address() {
    assert_eq!(DEFAULT_ADDRESS, 0x61);
    assert_eq!(GROUP_LEN, 3);
}

#[test]
fn opcodes() {
    assert_eq!(Command::ReadFirmwareVersion.opcode(), 0xd100);
    assert_eq!(Command::StartContinuousMeasurement(1020).opcode(), 0x0010);
    assert_eq!(Command::DataReady.opcode(), 0x0202);
    assert_eq!(Command::ReadMeasurement.opcode(), 0x0300);
}

#[test]
fn arguments() {
    assert_eq!(Command::ReadFirmwareVersion.argument(), None);
    assert_eq!(Command::StartContinuousMeasurement(1020).argument(), Some(1020));
    assert_eq!(Command::DataReady.argument(), None);
    assert_eq!(Command::ReadMeasurement.argument(), None);
}

#[test]
fn response_lengths() {
    assert_eq!(Command::ReadFirmwareVersion.response_len(), 2);
    assert_eq!(Command::StartContinuousMeasurement(0).response_len(), 0);
    assert_eq!(Command::DataReady.response_len(), 3);
    assert_eq!(Command::ReadMeasurement.response_len(), 18);
}

#[test]
fn frames_without_argument_are_the_bare_opcode() {
    assert_eq!(Command::ReadFirmwareVersion.encode(), vec![0xd1, 0x00]);
    assert_eq!(Command::DataReady.encode(), vec![0x02, 0x02]);
    assert_eq!(Command::ReadMeasurement.encode(), vec![0x03, 0x00]);
}

#[test]
fn start_frame_for_zero_pressure_is_the_vendors_example() {
    assert_eq!(
        Command::StartContinuousMeasurement(0).encode(),
        vec![0x00, 0x10, 0x00, 0x00, 0x81]
    );
}

#[test]
fn start_frame_for_default_pressure() {
    assert_eq!(
        Command::StartContinuousMeasurement(1020).encode(),
        vec![0x00, 0x10, 0x03, 0xfc, 0x53]
    );
}

#[test]
fn start_frame_checksum_covers_the_argument_only() {
    let frame = Command::StartContinuousMeasurement(0xbeef).encode();
    assert_eq!(frame[4], checksum(&frame[2..4]));
    assert_eq!(frame[4], 0x92);
    assert_ne!(frame[4], checksum(&frame[0..4]));
}

#[test]
fn start_frame_round_trips_for_every_pressure() {
    for pressure in 0..=u16::MAX {
        let frame = Command::StartContinuousMeasurement(pressure).encode();
        assert_eq!(frame.len(), 5);
        assert_eq!(&frame[0..2], &[0x00, 0x10]);
        assert_eq!(&frame[2..4], &pressure.to_be_bytes());
        assert_eq!(frame[4], checksum(&pressure.to_be_bytes()));
        assert_eq!(decode_group(&frame[2..5]), Ok(pressure));
    }
}

#[test]
fn encode_word_is_big_endian_with_checksum() {
    assert_eq!(encode_word(0xbeef), [0xbe, 0xef, 0x92]);
    assert_eq!(encode_word(0x0001), [0x00, 0x01, 0xb0]);
}

#[test]
fn decode_group_checks_length_and_checksum() {
    assert_eq!(decode_group(&[0xbe, 0xef, 0x92]), Ok(0xbeef));
    assert_eq!(decode_group(&[0xbe, 0xef, 0x93]), Err(Error::ChecksumMismatch));
    assert_eq!(decode_group(&[0xbe, 0xee, 0x92]), Err(Error::ChecksumMismatch));
    assert_eq!(decode_group(&[0xbe, 0xef]), Err(Error::UnexpectedResponseLength));
    assert_eq!(decode_group(&[0xbe, 0xef, 0x92, 0x00]), Err(Error::UnexpectedResponseLength));
    assert_eq!(decode_group(&[]), Err(Error::UnexpectedResponseLength));
}

#[test]
fn decode_words_strips_checksums() {
    assert_eq!(decode_words(&VENDOR_RESPONSE, 6), Ok(vec![0x43db, 0x8c2e, 0x41d9, 0xe7ff, 0x4243, 0x3a1b]));
    assert_eq!(decode_words(&[], 0), Ok(vec![]));
}

#[test]
fn decode_words_rejects_other_lengths() {
    assert_eq!(decode_words(&VENDOR_RESPONSE, 5), Err(Error::UnexpectedResponseLength));
    assert_eq!(decode_words(&VENDOR_RESPONSE, 7), Err(Error::UnexpectedResponseLength));
    assert_eq!(decode_words(&VENDOR_RESPONSE[0..17], 6), Err(Error::UnexpectedResponseLength));
    assert_eq!(decode_words(&VENDOR_RESPONSE[0..17], 5), Err(Error::UnexpectedResponseLength));
    assert_eq!(decode_words(&[], 1), Err(Error::UnexpectedResponseLength));
}

#[test]
fn length_is_judged_before_checksums() {
    let mut response = VENDOR_RESPONSE;
    response[2] ^= 0xff;
    assert_eq!(decode_words(&response, 5), Err(Error::UnexpectedResponseLength));
    assert_eq!(decode_words(&response, 6), Err(Error::ChecksumMismatch));
}

#[test]
fn firmware_version_is_two_raw_bytes() {
    assert_eq!(decode_firmware_version(&[0x03, 0x42]), Ok([0x03, 0x42]));
    assert_eq!(decode_firmware_version(&[0x00, 0x00]), Ok([0x00, 0x00]));
}

#[test]
fn firmware_version_of_wrong_length() {
    assert_eq!(decode_firmware_version(&[0x03]), Err(Error::UnexpectedResponseLength));
    assert_eq!(decode_firmware_version(&[0x03, 0x42, 0xf3]), Err(Error::UnexpectedResponseLength));
    assert_eq!(decode_firmware_version(&[]), Err(Error::UnexpectedResponseLength));
}

#[test]
fn data_ready_is_true_only_for_one() {
    assert_eq!(decode_data_ready(&encode_word(1)), Ok(true));
    assert_eq!(decode_data_ready(&[0x00, 0x01, 0xb0]), Ok(true));
    assert_eq!(decode_data_ready(&encode_word(0)), Ok(false));
    assert_eq!(decode_data_ready(&[0x00, 0x00, 0x81]), Ok(false));
    assert_eq!(decode_data_ready(&encode_word(2)), Ok(false));
    assert_eq!(decode_data_ready(&encode_word(0x0100)), Ok(false));
    assert_eq!(decode_data_ready(&encode_word(0xffff)), Ok(false));
}

#[test]
fn data_ready_with_bad_checksum_is_an_error_not_false() {
    assert_eq!(decode_data_ready(&[0x00, 0x01, 0xb1]), Err(Error::ChecksumMismatch));
    assert_eq!(decode_data_ready(&[0x00, 0x00, 0x00]), Err(Error::ChecksumMismatch));
    assert_eq!(decode_data_ready(&[0x00, 0x01, 0x81]), Err(Error::ChecksumMismatch));
}

#[test]
fn data_ready_of_wrong_length() {
    assert_eq!(decode_data_ready(&[0x00, 0x01]), Err(Error::UnexpectedResponseLength));
    assert_eq!(decode_data_ready(&[0x00, 0x01, 0xb0, 0x00]), Err(Error::UnexpectedResponseLength));
    assert_eq!(decode_data_ready(&[]), Err(Error::UnexpectedResponseLength));
}

#[test]
fn float_reassembly_reproduces_one_thousand() {
    let response = [
        0x44, 0x7a, 0xa8, 0x00, 0x00, 0x81, 0x41, 0xcc, 0xc6, 0x00, 0x00, 0x81, 0x42, 0x20, 0x57,
        0x00, 0x00, 0x81,
    ];
    let data = decode_measurement(&response).unwrap();
    assert_eq!(data.co2, 0x447a_0000);
    assert_eq!(f32::from_bits(data.co2), 1000.0);
    assert_eq!(f32::from_bits(data.temperature), 25.5);
    assert_eq!(f32::from_bits(data.humidity), 40.0);
}

#[test]
fn float_reassembly_keeps_group_order() {
    let response = response_for(f32::from_bits(0x4479_0000), -12.25, 99.5);
    let data = decode_measurement(&response).unwrap();
    assert_eq!(data.co2, 0x4479_0000);
    assert_eq!(f32::from_bits(data.co2), 996.0);
    assert_eq!(f32::from_bits(data.temperature), -12.25);
    assert_eq!(f32::from_bits(data.humidity), 99.5);
}

#[test]
fn measurement_of_the_vendors_example() {
    assert_eq!(
        decode_measurement(&VENDOR_RESPONSE),
        Ok(SensorData { co2: 0x43db_8c2e, temperature: 0x41d9_e7ff, humidity: 0x4243_3a1b })
    );
    let data = decode_measurement(&VENDOR_RESPONSE).unwrap();
    assert!((f32::from_bits(data.co2) - 439.09).abs() < 0.01);
    assert!((f32::from_bits(data.temperature) - 27.24).abs() < 0.01);
    assert!((f32::from_bits(data.humidity) - 48.81).abs() < 0.01);
}

#[test]
fn measurement_round_trips_arbitrary_patterns() {
    let patterns = [0u32, 1, 0x8000_0000, 0x7f80_0000, 0x7fc0_0000, 0xdead_beef, u32::MAX];
    for &co2 in &patterns {
        for &temperature in &patterns {
            let response = response_for(
                f32::from_bits(co2),
                f32::from_bits(temperature),
                f32::from_bits(0x1234_5678),
            );
            let data = decode_measurement(&response).unwrap();
            assert_eq!(data.co2, co2);
            assert_eq!(data.temperature, temperature);
            assert_eq!(data.humidity, 0x1234_5678);
        }
    }
}

#[test]
fn measurement_with_any_corrupted_byte_is_a_mismatch() {
    for position in 0..18 {
        let mut response = VENDOR_RESPONSE;
        response[position] ^= 0x01;
        assert_eq!(decode_measurement(&response), Err(Error::ChecksumMismatch));
    }
}

#[test]
fn measurement_of_wrong_length() {
    assert_eq!(decode_measurement(&VENDOR_RESPONSE[0..17]), Err(Error::UnexpectedResponseLength));
    assert_eq!(decode_measurement(&VENDOR_RESPONSE[0..15]), Err(Error::UnexpectedResponseLength));
    assert_eq!(decode_measurement(&[]), Err(Error::UnexpectedResponseLength));
    let mut long = VENDOR_RESPONSE.to_vec();
    long.extend_from_slice(&[0x00, 0x00, 0x81]);
    assert_eq!(decode_measurement(&long), Err(Error::UnexpectedResponseLength));
}
