use re202_core::sysex::{checksum, Frame, SysExError, CMD_DT1, CMD_RQ1};

/// DT1 to System / Input Source (`10 00 00 00`) = Guitar (0x00).
/// addr+data sum = 0x10 = 16. checksum = (128 - 16) % 128 = 112 = 0x70.
const SYSTEM_INPUT_SOURCE_GUITAR: &[u8] = &[
    0xF0, 0x41, 0x10, 0x00, 0x00, 0x00, 0x00, 0x18, 0x12, 0x10, 0x00, 0x00, 0x00, 0x00, 0x70,
    0xF7,
];

#[test]
fn checksum_matches_roland_spec() {
    assert_eq!(checksum(&[0x10, 0x00, 0x00, 0x00, 0x00]), 0x70);
    assert_eq!(checksum(&[]), 0);
    assert_eq!(checksum(&[0, 0, 0, 0]), 0);
    assert_eq!(checksum(&[127]), 1);
    assert_eq!(checksum(&[64, 64]), 0);
}

#[test]
fn checksum_balances_the_sum() {
    let data: Vec<u8> = (0..=255u8).collect();
    let c = checksum(&data);
    let sum: u32 = data.iter().map(|&b| b as u32).sum();
    assert!(c < 128);
    assert_eq!((sum + c as u32) % 128, 0);
}

#[test]
fn encode_input_source_guitar() {
    let f = Frame::data_set(0x10, [0x10, 0x00, 0x00, 0x00], vec![0x00]);
    assert_eq!(f.encode(), SYSTEM_INPUT_SOURCE_GUITAR);
}

#[test]
fn decode_input_source_guitar() {
    let f = Frame::decode(SYSTEM_INPUT_SOURCE_GUITAR).unwrap();
    assert_eq!(f.device_id, 0x10);
    assert_eq!(f.command, CMD_DT1);
    assert_eq!(f.address, [0x10, 0x00, 0x00, 0x00]);
    assert_eq!(f.data, vec![0x00]);
}

#[test]
fn round_trip_random_dt1() {
    let f = Frame::data_set(0x1F, [0x20, 0x01, 0x02, 0x03], vec![0x5A, 0x33, 0x7F, 0x00]);
    let bytes = f.encode();
    let decoded = Frame::decode(&bytes).unwrap();
    assert_eq!(f, decoded);
}

#[test]
fn round_trip_rq1() {
    let f = Frame::data_request(0x10, [0x20, 0x00, 0x00, 0x00], [0x00, 0x00, 0x00, 0x10]);
    let bytes = f.encode();
    let decoded = Frame::decode(&bytes).unwrap();
    assert_eq!(decoded.command, CMD_RQ1);
    assert_eq!(decoded.data, vec![0x00, 0x00, 0x00, 0x10]);
    assert_eq!(f, decoded);
}

#[test]
fn round_trip_empty_payload() {
    let f = Frame::data_set(0x15, [0x7F, 0x7F, 0x7F, 0x7F], vec![]);
    let bytes = f.encode();
    assert_eq!(bytes.len(), 15);
    assert_eq!(Frame::decode(&bytes).unwrap(), f);
}

#[test]
fn rejects_bad_checksum() {
    let mut bytes = SYSTEM_INPUT_SOURCE_GUITAR.to_vec();
    bytes[14] = 0x71;
    let err = Frame::decode(&bytes).unwrap_err();
    assert!(matches!(err, SysExError::ChecksumMismatch { .. }));
    assert_eq!(
        err,
        SysExError::ChecksumMismatch {
            expected: 0x71,
            actual: 0x70
        }
    );
}

#[test]
fn rejects_wrong_model() {
    let mut bytes = SYSTEM_INPUT_SOURCE_GUITAR.to_vec();
    bytes[7] = 0x19;
    let err = Frame::decode(&bytes).unwrap_err();
    assert_eq!(err, SysExError::WrongModel);
}

#[test]
fn rejects_non_roland() {
    let mut bytes = SYSTEM_INPUT_SOURCE_GUITAR.to_vec();
    bytes[1] = 0x42;
    let err = Frame::decode(&bytes).unwrap_err();
    assert_eq!(err, SysExError::NotRoland(0x42));
}

#[test]
fn rejects_invalid_device_id() {
    let mut bytes = SYSTEM_INPUT_SOURCE_GUITAR.to_vec();
    bytes[2] = 0x20;
    let err = Frame::decode(&bytes).unwrap_err();
    assert_eq!(err, SysExError::InvalidDeviceId(0x20));
}

#[test]
fn rejects_data_byte_out_of_range() {
    let bytes = [
        0xF0, 0x41, 0x10, 0x00, 0x00, 0x00, 0x00, 0x18, 0x12, 0x10, 0x00, 0x00, 0x00, 0x80,
        0x00, 0xF7,
    ];
    let err = Frame::decode(&bytes).unwrap_err();
    assert!(matches!(err, SysExError::DataByteOutOfRange(0)));
}

#[test]
fn reports_first_high_data_byte() {
    let bytes = [
        0xF0, 0x41, 0x10, 0x00, 0x00, 0x00, 0x00, 0x18, 0x12, 0x10, 0x00, 0x00, 0x00, 0x01,
        0x02, 0x90, 0x81, 0x00, 0xF7,
    ];
    assert_eq!(
        Frame::decode(&bytes).unwrap_err(),
        SysExError::DataByteOutOfRange(2)
    );
}

#[test]
fn rejects_too_short() {
    let bytes = [0xF0, 0x41, 0x10, 0xF7];
    let err = Frame::decode(&bytes).unwrap_err();
    assert!(matches!(err, SysExError::TooShort(4)));
}

#[test]
fn rejects_missing_sentinels_and_unknown_command() {
    let mut bytes = SYSTEM_INPUT_SOURCE_GUITAR.to_vec();
    bytes[0] = 0xF1;
    assert_eq!(Frame::decode(&bytes).unwrap_err(), SysExError::MissingStart);

    let mut bytes = SYSTEM_INPUT_SOURCE_GUITAR.to_vec();
    bytes[15] = 0xF6;
    assert_eq!(Frame::decode(&bytes).unwrap_err(), SysExError::MissingEnd);

    let mut bytes = SYSTEM_INPUT_SOURCE_GUITAR.to_vec();
    bytes[8] = 0x13;
    assert_eq!(
        Frame::decode(&bytes).unwrap_err(),
        SysExError::UnknownCommand(0x13)
    );
}
