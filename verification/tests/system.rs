use re202_core::system::SYSTEM_AREA_LEN;
use re202_core::{
    CodecError, Ctl1Function, Ctl2Function, DirectMode, DirectSettings, InputSource, MidiChannel,
    MidiSettings, RealtimeSource, ReverbType, SyncSource, SystemArea, TimeMode, TxChannel,
};
use re202_core::system::{MidiChannelSymbol, TxChannelSymbol};

/// Bytes of the System area as captured from the device.
const FIXTURE_BYTES: [u8; SYSTEM_AREA_LEN] = [
    0x00, 0x01, 0x01, 0x01, 0x00, 0x01, 0x00, 0x00, 0x04, 0x01, 0x11, 0x01, 0x01, 0x00, 0x00,
    0x00, 0x00, 0x01,
];

fn fixture_value() -> SystemArea {
    SystemArea {
        input_source: InputSource::Guitar,
        ctl1_function: Ctl1Function::MemoryDown,
        ctl2_function: Ctl2Function::MemoryDown,
        direct: DirectSettings {
            on: true,
            mode: DirectMode::Analog,
        },
        carryover: true,
        time_mode: TimeMode::Normal,
        reverb_type: ReverbType::Spring,
        memory_extent: 4,
        midi: MidiSettings {
            rx_channel: MidiChannel::Channel(1),
            tx_channel: TxChannel::Symbolic(TxChannelSymbol::Rx),
            pc_in: true,
            pc_out: true,
            cc_in: false,
            cc_out: false,
            sync_source: SyncSource::Internal,
            realtime_source: RealtimeSource::Internal,
            thru: true,
        },
    }
}

#[test]
fn decode_then_encode_round_trips() {
    let decoded = SystemArea::from_bytes(&FIXTURE_BYTES).unwrap();
    assert_eq!(decoded, fixture_value());
    let bytes = decoded.to_bytes().unwrap();
    assert_eq!(bytes, FIXTURE_BYTES);
}

#[test]
fn rejects_wrong_length() {
    let err = SystemArea::from_bytes(&[0u8; 10]).unwrap_err();
    assert_eq!(
        err,
        CodecError::WrongLength {
            expected: 18,
            actual: 10
        }
    );
}

#[test]
fn rejects_invalid_enum_byte() {
    let mut bytes = FIXTURE_BYTES;
    bytes[0x00] = 0x05;
    let err = SystemArea::from_bytes(&bytes).unwrap_err();
    assert!(matches!(
        err,
        CodecError::InvalidValue {
            field: "input_source",
            ..
        }
    ));
}

#[test]
fn rejects_out_of_range_memory_extent_on_encode() {
    let mut v = fixture_value();
    v.memory_extent = 5;
    let err = v.to_bytes().unwrap_err();
    assert!(matches!(
        err,
        CodecError::OutOfRange {
            field: "memory_extent",
            ..
        }
    ));
}

#[test]
fn rejects_out_of_range_memory_extent_on_decode() {
    let mut bytes = FIXTURE_BYTES;
    bytes[0x08] = 0;
    assert_eq!(
        SystemArea::from_bytes(&bytes).unwrap_err(),
        CodecError::OutOfRange {
            field: "memory_extent",
            value: 0,
            valid: "see field doc"
        }
    );
}

#[test]
fn reports_first_invalid_field_in_offset_order() {
    let mut bytes = FIXTURE_BYTES;
    bytes[0x0A] = 18;
    bytes[0x11] = 7;
    assert_eq!(
        SystemArea::from_bytes(&bytes).unwrap_err(),
        CodecError::InvalidValue {
            field: "midi.tx_channel",
            value: 18,
            valid: "0 (=off), 1..=16, or 17 (=rx)"
        }
    );
}

#[test]
fn channel_symbols_map_to_their_bytes() {
    let mut bytes = FIXTURE_BYTES;
    bytes[0x09] = 0;
    bytes[0x0A] = 0;
    let v = SystemArea::from_bytes(&bytes).unwrap();
    assert_eq!(v.midi.rx_channel, MidiChannel::Symbolic(MidiChannelSymbol::Off));
    assert_eq!(v.midi.tx_channel, TxChannel::Symbolic(TxChannelSymbol::Off));
    assert_eq!(v.to_bytes().unwrap(), bytes);
    bytes[0x09] = 16;
    bytes[0x0A] = 16;
    let v = SystemArea::from_bytes(&bytes).unwrap();
    assert_eq!(v.midi.rx_channel, MidiChannel::Channel(16));
    assert_eq!(v.midi.tx_channel, TxChannel::Channel(16));
}

#[test]
fn every_enum_value_round_trips_through_bytes() {
    let mut v = fixture_value();
    v.input_source = InputSource::Line;
    v.ctl1_function = Ctl1Function::Warp;
    v.ctl2_function = Ctl2Function::Twist;
    v.direct.mode = DirectMode::Re201Simulate;
    v.time_mode = TimeMode::Long;
    v.reverb_type = ReverbType::Ambience;
    v.memory_extent = 1;
    v.midi.sync_source = SyncSource::Auto;
    v.midi.realtime_source = RealtimeSource::Midi;
    let bytes = v.to_bytes().unwrap();
    assert_eq!(bytes[0x01], 4);
    assert_eq!(bytes[0x07], 4);
    assert_eq!(SystemArea::from_bytes(&bytes).unwrap(), v);
}

#[test]
fn rejects_out_of_range_channels_on_encode() {
    let mut v = fixture_value();
    v.midi.rx_channel = MidiChannel::Channel(17);
    v.midi.tx_channel = TxChannel::Channel(200);
    assert_eq!(
        v.to_bytes().unwrap_err(),
        CodecError::OutOfRange {
            field: "midi.rx_channel",
            value: 17,
            valid: "1..=16",
        }
    );
    v.midi.rx_channel = MidiChannel::Channel(0);
    assert_eq!(
        v.to_bytes().unwrap_err(),
        CodecError::OutOfRange {
            field: "midi.rx_channel",
            value: 0,
            valid: "1..=16",
        }
    );
    v.midi.rx_channel = MidiChannel::Channel(16);
    assert_eq!(
        v.to_bytes().unwrap_err(),
        CodecError::OutOfRange {
            field: "midi.tx_channel",
            value: 200,
            valid: "1..=16",
        }
    );
    v.midi.tx_channel = TxChannel::Channel(17);
    assert_eq!(
        v.to_bytes().unwrap_err(),
        CodecError::OutOfRange {
            field: "midi.tx_channel",
            value: 17,
            valid: "1..=16",
        }
    );
    v.midi.tx_channel = TxChannel::Channel(1);
    let bytes = v.to_bytes().unwrap();
    assert_eq!((bytes[0x09], bytes[0x0A]), (16, 1));
    // Memory Extent is checked before the channels.
    v.memory_extent = 0;
    v.midi.rx_channel = MidiChannel::Channel(17);
    assert_eq!(
        v.to_bytes().unwrap_err(),
        CodecError::OutOfRange {
            field: "memory_extent",
            value: 0,
            valid: "1..=4",
        }
    );
}
