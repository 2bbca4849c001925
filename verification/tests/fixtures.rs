//! Round trips against RE-202 SysEx captures, written out byte for byte.

use re202_core::address::{AddressSpace, MemorySlot, MEMORY_BLOCK_LEN};
use re202_core::{classify_inbound, Frame, InboundMessage, Memory, SystemArea, CMD_DT1};

const SYSTEM_INPUT_SOURCE_GUITAR: &[u8] = &[
    0xF0, 0x41, 0x10, 0x00, 0x00, 0x00, 0x00, 0x18, 0x12, 0x10, 0x00, 0x00, 0x00, 0x00, 0x70,
    0xF7,
];

const SYSTEM_FULL_DUMP: &[u8] = &[
    0xF0, 0x41, 0x10, 0x00, 0x00, 0x00, 0x00, 0x18, 0x12, 0x10, 0x00, 0x00, 0x00, 0x00, 0x01,
    0x01, 0x01, 0x00, 0x01, 0x00, 0x00, 0x04, 0x01, 0x11, 0x01, 0x01, 0x00, 0x00, 0x00, 0x00,
    0x01, 0x53, 0xF7,
];

const MEMORY_001_DUMP: &[u8] = &[
    0xF0, 0x41, 0x10, 0x00, 0x00, 0x00, 0x00, 0x18, 0x12, 0x20, 0x20, 0x00, 0x00, 0x00, 0x04,
    0x4D, 0x4D, 0x4D, 0x36, 0x36, 0x36, 0x60, 0x3F, 0x7F, 0x3F, 0x3F, 0x3F, 0x3E, 0x3E, 0x3E,
    0x06, 0x06, 0x06, 0x00, 0x00, 0x00, 0x52, 0x52, 0x52, 0x01, 0x00, 0x00, 0x01, 0x0F, 0x04,
    0x00, 0x01, 0xF7,
];

#[test]
fn system_input_source_guitar_round_trips() {
    let bytes = SYSTEM_INPUT_SOURCE_GUITAR.to_vec();
    let frame = Frame::decode(&bytes).expect("decode");
    assert_eq!(frame.device_id, 0x10);
    assert_eq!(frame.command, CMD_DT1);
    assert_eq!(frame.address, [0x10, 0x00, 0x00, 0x00]);
    assert_eq!(frame.data, vec![0x00]);
    assert_eq!(frame.encode(), bytes);
}

#[test]
fn system_full_dump_decodes_to_18_bytes() {
    let bytes = SYSTEM_FULL_DUMP.to_vec();
    let frame = Frame::decode(&bytes).expect("decode");
    assert_eq!(frame.command, CMD_DT1);
    assert_eq!(frame.address, [0x10, 0x00, 0x00, 0x00]);
    assert_eq!(
        frame.data.len(),
        18,
        "System area is documented as 18 bytes (offsets 0x00..0x11)"
    );
    assert_eq!(frame.data[0x00], 0x00, "Input Source = Guitar");
    assert_eq!(frame.data[0x09], 0x01, "MIDI Rx Channel = 1");
    assert_eq!(frame.data[0x11], 0x01, "MIDI Thru = ON (explains echo behavior)");
    assert_eq!(frame.encode(), bytes);
}

#[test]
fn memory_001_decodes_to_33_bytes() {
    let bytes = MEMORY_001_DUMP.to_vec();
    let frame = Frame::decode(&bytes).expect("decode");
    assert_eq!(frame.command, CMD_DT1);
    assert_eq!(
        frame.address,
        MemorySlot::User(1).base_address(),
        "MEMORY 1 lives at 0x20 0x20 0x00 0x00"
    );
    assert_eq!(
        frame.data.len(),
        MEMORY_BLOCK_LEN,
        "per-memory block is 33 bytes (offsets 0x00..0x20)"
    );
    let t = ((frame.data[0x1C] as u16) << 12)
        | ((frame.data[0x1D] as u16) << 8)
        | ((frame.data[0x1E] as u16) << 4)
        | (frame.data[0x1F] as u16);
    assert_eq!(t, 500, "Tap Time should unpack to 500 ms");
    assert_eq!(frame.encode(), bytes);
}

#[test]
fn classify_inbound_recognises_each_fixture() {
    assert!(matches!(
        classify_inbound(SYSTEM_INPUT_SOURCE_GUITAR),
        InboundMessage::SystemDataSet { .. }
    ));
    assert!(matches!(
        classify_inbound(SYSTEM_FULL_DUMP),
        InboundMessage::SystemDataSet { .. }
    ));
    assert!(matches!(
        classify_inbound(MEMORY_001_DUMP),
        InboundMessage::MemoryDataSet { .. }
    ));
    let mem_frame = Frame::decode(MEMORY_001_DUMP).unwrap();
    assert_eq!(AddressSpace::classify(mem_frame.address), AddressSpace::Memory);
}

#[test]
fn system_fixture_round_trips_through_typed() {
    let frame = Frame::decode(SYSTEM_FULL_DUMP).expect("frame decode");
    let typed = SystemArea::from_bytes(&frame.data).expect("typed decode");
    let mut rebuilt = frame.clone();
    rebuilt.data = typed.to_bytes().expect("typed encode").to_vec();
    assert_eq!(rebuilt.encode(), SYSTEM_FULL_DUMP);
}

#[test]
fn memory_fixture_round_trips_through_typed() {
    let frame = Frame::decode(MEMORY_001_DUMP).expect("frame decode");
    let typed = Memory::from_bytes(&frame.data).expect("typed decode");
    let mut rebuilt = frame.clone();
    rebuilt.data = typed.to_bytes().expect("typed encode").to_vec();
    assert_eq!(rebuilt.encode(), MEMORY_001_DUMP);
}
