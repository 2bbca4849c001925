use re202_core::address::MEMORY_BLOCK_LEN;
use re202_core::memory::{pack_tap_time, unpack_tap_time};
use re202_core::{CodecError, Memory, Mode, RangedParam, Tape, TimeMode};

/// Bytes of MEMORY 1 as captured from the device (Tap Time = 500 ms).
const MEMORY_1_BYTES: [u8; MEMORY_BLOCK_LEN] = [
    0x00, 0x04, 0x4D, 0x4D, 0x4D, 0x36, 0x36, 0x36, 0x60, 0x3F, 0x7F, 0x3F, 0x3F, 0x3F, 0x3E,
    0x3E, 0x3E, 0x06, 0x06, 0x06, 0x00, 0x00, 0x00, 0x52, 0x52, 0x52, 0x01, 0x00, 0x00, 0x01,
    0x0F, 0x04, 0x00,
];

#[test]
fn unpack_pack_tap_time_round_trips() {
    for &ms in &[0u16, 1, 50, 500, 1000, 1500, 2000] {
        let packed = pack_tap_time(ms).unwrap();
        assert_eq!(unpack_tap_time(&packed).unwrap(), ms);
    }
}

#[test]
fn pack_tap_time_rejects_over_2000() {
    let err = pack_tap_time(2001).unwrap_err();
    assert!(matches!(
        err,
        CodecError::OutOfRange {
            field: "tap_time_ms",
            ..
        }
    ));
}

#[test]
fn unpack_tap_time_rejects_high_nibble() {
    let err = unpack_tap_time(&[0x10, 0, 0, 0]).unwrap_err();
    assert!(matches!(
        err,
        CodecError::InvalidValue {
            field: "tap_time_nibble",
            ..
        }
    ));
}

#[test]
fn tap_time_nibbles_are_msb_first() {
    assert_eq!(pack_tap_time(500).unwrap(), [0x00, 0x01, 0x0F, 0x04]);
    assert_eq!(pack_tap_time(2000).unwrap(), [0x00, 0x07, 0x0D, 0x00]);
    assert_eq!(unpack_tap_time(&[0x00, 0x07, 0x0D, 0x00]).unwrap(), 2000);
    assert_eq!(
        unpack_tap_time(&[0x00, 0x07, 0x0D, 0x01]).unwrap_err(),
        CodecError::OutOfRange {
            field: "tap_time_ms",
            value: 2001,
            valid: "0..=2000",
        }
    );
    assert_eq!(
        unpack_tap_time(&[0x0F, 0x0F, 0x0F, 0x0F]).unwrap_err(),
        CodecError::OutOfRange {
            field: "tap_time_ms",
            value: 0xFFFF,
            valid: "0..=2000",
        }
    );
    assert_eq!(
        unpack_tap_time(&[0x00, 0x01, 0x2F, 0x04]).unwrap_err(),
        CodecError::InvalidValue {
            field: "tap_time_nibble",
            value: 0x2F,
            valid: "0..=15 (low nibble only)",
        }
    );
}

#[test]
fn decode_memory_1_then_encode_round_trips() {
    let m = Memory::from_bytes(&MEMORY_1_BYTES).unwrap();
    assert_eq!(m.tape, Tape::New);
    assert_eq!(m.mode, Mode::M5);
    assert_eq!(m.repeat_rate.value, 77);
    assert_eq!(m.tap_time_ms, 500);
    assert_eq!(m.time_mode, TimeMode::Normal);
    assert_eq!(m.to_bytes().unwrap(), MEMORY_1_BYTES);
}

#[test]
fn memory_1_fields() {
    let m = Memory::from_bytes(&MEMORY_1_BYTES).unwrap();
    assert_eq!(
        m.echo_volume,
        RangedParam {
            value: 0x60,
            min: 0x3F,
            max: 0x7F
        }
    );
    assert_eq!(m.wow_flutter.value, 82);
    assert!(m.reverb_sw);
    assert!(!m.tap_sw);
}

#[test]
fn memory_rejects_wrong_length_and_bad_bytes() {
    assert_eq!(
        Memory::from_bytes(&[0u8; 10]).unwrap_err(),
        CodecError::WrongLength {
            expected: 33,
            actual: 10
        }
    );
    let mut b = MEMORY_1_BYTES;
    b[0x01] = 12;
    assert!(matches!(
        Memory::from_bytes(&b).unwrap_err(),
        CodecError::InvalidValue { field: "mode", value: 12, .. }
    ));
    let mut b = MEMORY_1_BYTES;
    b[0x06] = 0x80;
    assert_eq!(
        Memory::from_bytes(&b).unwrap_err(),
        CodecError::OutOfRange {
            field: "intensity",
            value: 0x80,
            valid: "0..=127"
        }
    );
    let mut b = MEMORY_1_BYTES;
    b[0x1B] = 2;
    assert!(matches!(
        Memory::from_bytes(&b).unwrap_err(),
        CodecError::InvalidValue { field: "tap_sw", value: 2, .. }
    ));
    let mut b = MEMORY_1_BYTES;
    b[0x20] = 2;
    assert!(matches!(
        Memory::from_bytes(&b).unwrap_err(),
        CodecError::InvalidValue { field: "time_mode", .. }
    ));
}

#[test]
fn memory_encode_reports_first_bad_field() {
    let mut m = Memory::from_bytes(&MEMORY_1_BYTES).unwrap();
    m.bass.max = 200;
    m.tap_time_ms = 3000;
    assert_eq!(
        m.to_bytes().unwrap_err(),
        CodecError::OutOfRange {
            field: "bass",
            value: 200,
            valid: "0..=127"
        }
    );
    m.bass.max = 100;
    assert!(matches!(
        m.to_bytes().unwrap_err(),
        CodecError::OutOfRange { field: "tap_time_ms", value: 3000, .. }
    ));
}

#[test]
fn edited_memory_round_trips() {
    let mut m = Memory::from_bytes(&MEMORY_1_BYTES).unwrap();
    m.tape = Tape::Aged;
    m.mode = Mode::M12;
    m.tap_time_ms = 2000;
    m.time_mode = TimeMode::Long;
    let bytes = m.to_bytes().unwrap();
    assert_eq!(bytes[0x01], 11);
    assert_eq!(Memory::from_bytes(&bytes).unwrap(), m);
}

#[test]
fn ranged_param_checks_each_byte() {
    assert_eq!(
        RangedParam::from_bytes(1, 2, 3, "bass").unwrap(),
        RangedParam {
            value: 1,
            min: 2,
            max: 3
        }
    );
    assert_eq!(
        RangedParam::from_bytes(1, 130, 140, "bass").unwrap_err(),
        CodecError::OutOfRange {
            field: "bass",
            value: 130,
            valid: "0..=127"
        }
    );
    let p = RangedParam {
        value: 5,
        min: 0,
        max: 128,
    };
    assert!(p.to_bytes("treble").is_err());
}

#[test]
fn memory_with_tap_time_over_2000_is_rejected() {
    let mut bytes = MEMORY_1_BYTES;
    bytes[0x1C] = 0x00;
    bytes[0x1D] = 0x0F;
    bytes[0x1E] = 0x0F;
    bytes[0x1F] = 0x0F;
    assert_eq!(
        Memory::from_bytes(&bytes).unwrap_err(),
        CodecError::OutOfRange {
            field: "tap_time_ms",
            value: 4095,
            valid: "0..=2000",
        }
    );
}
