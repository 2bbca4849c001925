use re202_core::address::{MemorySlot, EDIT_BUFFER_BASE};
use re202_core::catalog::Re202Catalogs;
use re202_core::device::{
    area_for_address, build_areas, classify_identity, decimal_string, first_block_data,
    roland_device_id, size_field, target_for, AreaDocument, DeviceFailure, DeviceInbound,
    Target,
};
use re202_core::{CodecError, Frame, Memory, Re202, SystemArea};

const SYSTEM_BYTES: [u8; 18] = [
    0x00, 0x01, 0x01, 0x01, 0x00, 0x01, 0x00, 0x00, 0x04, 0x01, 0x11, 0x01, 0x01, 0x00, 0x00,
    0x00, 0x00, 0x01,
];

const MEMORY_BYTES: [u8; 33] = [
    0x00, 0x04, 0x4D, 0x4D, 0x4D, 0x36, 0x36, 0x36, 0x60, 0x3F, 0x7F, 0x3F, 0x3F, 0x3F, 0x3E,
    0x3E, 0x3E, 0x06, 0x06, 0x06, 0x00, 0x00, 0x00, 0x52, 0x52, 0x52, 0x01, 0x00, 0x00, 0x01,
    0x0F, 0x04, 0x00,
];

fn target_address(area: &str) -> [u8; 4] {
    match target_for(area) {
        Some(Target::Memory(a)) => a,
        other => panic!("expected a memory target for {area}, got {other:?}"),
    }
}

#[test]
fn target_mapping() {
    assert!(matches!(target_for("system"), Some(Target::System)));
    assert!(matches!(
        target_for("memory"),
        Some(Target::Memory(a)) if a == [0x20, 0x10, 0x00, 0x00]
    ));
    assert!(matches!(
        target_for("edit"),
        Some(Target::Memory(a)) if a == EDIT_BUFFER_BASE
    ));
    assert!(matches!(
        target_for("memory-1"),
        Some(Target::Memory(a)) if a == [0x20, 0x20, 0x00, 0x00]
    ));
    assert!(matches!(
        target_for("memory-127"),
        Some(Target::Memory(a)) if a == [0x30, 0x00, 0x00, 0x00]
    ));
    assert!(target_for("memory-0").is_none());
    assert!(target_for("memory-128").is_none());
    assert!(target_for("bogus").is_none());
}

#[test]
fn slot_names_parse_like_u8() {
    assert_eq!(target_address("memory-+7"), target_address("memory-7"));
    assert_eq!(target_address("memory-007"), target_address("memory-7"));
    assert!(target_for("memory-").is_none());
    assert!(target_for("memory-+").is_none());
    assert!(target_for("memory--1").is_none());
    assert!(target_for("memory-1a").is_none());
    assert!(target_for("memory-256").is_none());
    assert!(target_for("Memory-1").is_none());
    assert!(target_for("systems").is_none());
}

#[test]
fn request_uses_roland_framing_and_device_id() {
    let req = Re202::request("system", 0).unwrap();
    assert_eq!(req[0], 0xF0);
    assert_eq!(req[1], 0x41);
    assert_eq!(req[2], 0x10);
    assert_eq!(req[8], re202_core::sysex::CMD_RQ1);
    assert_eq!(&req[9..13], &[0x10, 0x00, 0x00, 0x00]);
    assert_eq!(&req[13..17], &[0x00, 0x00, 0x00, 0x12]);
    let req5 = Re202::request("memory", 5).unwrap();
    assert_eq!(req5[2], 0x15);
    assert_eq!(&req5[9..13], &[0x20, 0x10, 0x00, 0x00]);
}

#[test]
fn request_for_user_slot_asks_for_33_bytes() {
    let req = Re202::request("memory-7", 15).unwrap();
    let f = Frame::decode(&req).unwrap();
    assert_eq!(f.device_id, 0x1F);
    assert_eq!(f.address, [0x21, 0x00, 0x00, 0x00]);
    assert_eq!(f.data, vec![0x00, 0x00, 0x00, 0x21]);
}

#[test]
fn unknown_area_errors() {
    assert!(matches!(
        Re202::request("nope", 0),
        Err(DeviceFailure::UnknownArea(_))
    ));
    assert!(matches!(
        Re202::decode("nope", &[]),
        Err(DeviceFailure::UnknownArea(_))
    ));
}

#[test]
fn system_round_trips_through_frames() {
    let system = SystemArea::from_bytes(&SYSTEM_BYTES).unwrap();
    let bytes = Re202::encode_system(&system, 0).unwrap();
    let back = Re202::decode("system", &[bytes]).unwrap();
    assert_eq!(back, AreaDocument::System(system));
}

#[test]
fn memory_round_trips_through_frames_for_every_target_kind() {
    let memory = Memory::from_bytes(&MEMORY_BYTES).unwrap();
    for area in ["memory", "edit", "memory-42", "memory-127"] {
        let bytes = Re202::encode_memory(target_address(area), &memory, 0).unwrap();
        let back = Re202::decode(area, &[bytes]).unwrap();
        assert_eq!(back, AreaDocument::Memory(memory.clone()), "round trip for area {area}");
    }
}

#[test]
fn decode_finds_first_matching_data_set() {
    let memory = Memory::from_bytes(&MEMORY_BYTES).unwrap();
    let echo = Frame::data_request(0x10, [0x20, 0x20, 0x00, 0x00], [0, 0, 0, 33]).encode();
    let other = Re202::encode_memory([0x20, 0x30, 0x00, 0x00], &memory, 0).unwrap();
    let garbage = vec![0xF0, 0x42, 0xF7];
    let wanted = Re202::encode_memory([0x20, 0x20, 0x00, 0x00], &memory, 0).unwrap();
    let frames = vec![echo, other, garbage, wanted.clone()];
    let data = first_block_data(&frames, [0x20, 0x20, 0x00, 0x00]).unwrap();
    assert_eq!(data, MEMORY_BYTES.to_vec());
    assert_eq!(
        first_block_data(&frames[..3], [0x20, 0x20, 0x00, 0x00]),
        Err(DeviceFailure::NoDataSet([0x20, 0x20, 0x00, 0x00]))
    );
}

#[test]
fn decode_reports_missing_block_and_codec_errors() {
    assert_eq!(
        Re202::decode("memory-1", &[]),
        Err(DeviceFailure::NoDataSet([0x20, 0x20, 0x00, 0x00]))
    );
    let short = Frame::data_set(0x10, [0x10, 0x00, 0x00, 0x00], vec![0x00]).encode();
    assert_eq!(
        Re202::decode("system", &[short]),
        Err(DeviceFailure::Codec(CodecError::WrongLength {
            expected: 18,
            actual: 1
        }))
    );
}

#[test]
fn encode_reports_codec_errors() {
    let mut system = SystemArea::from_bytes(&SYSTEM_BYTES).unwrap();
    system.memory_extent = 0;
    assert!(matches!(
        Re202::encode_system(&system, 0),
        Err(CodecError::OutOfRange { field: "memory_extent", .. })
    ));
    system.memory_extent = 4;
    system.midi.tx_channel = re202_core::TxChannel::Channel(17);
    assert_eq!(
        Re202::encode_system(&system, 0),
        Err(CodecError::OutOfRange { field: "midi.tx_channel", value: 17, valid: "1..=16" })
    );
    let mut memory = Memory::from_bytes(&MEMORY_BYTES).unwrap();
    memory.tap_time_ms = 2001;
    assert!(Re202::encode_memory([0x20, 0x10, 0x00, 0x00], &memory, 0).is_err());
}

#[test]
fn classify_inbound_recognizes_re202_identity() {
    let reply = [
        0xF0, 0x7E, 0x10, 0x06, 0x02, 0x41, 0x18, 0x04, 0x00, 0x00, 0x01, 0x00, 0x00, 0x00,
        0xF7,
    ];
    match Re202::classify_inbound(&reply) {
        DeviceInbound::Identity { model, .. } => assert_eq!(model.as_deref(), Some("RE-202")),
        other => panic!("expected Identity, got {other:?}"),
    }
    let other_reply = [0xF0, 0x7E, 0x10, 0x06, 0x02, 0x42, 0x00, 0x00, 0xF7];
    match Re202::classify_inbound(&other_reply) {
        DeviceInbound::Identity { model, .. } => assert_eq!(model, None),
        other => panic!("expected Identity, got {other:?}"),
    }
}

#[test]
fn classify_inbound_maps_data_sets_to_dumps() {
    let bytes = [
        0xF0, 0x41, 0x10, 0x00, 0x00, 0x00, 0x00, 0x18, 0x12, 0x10, 0x00, 0x00, 0x00, 0x00,
        0x70, 0xF7,
    ];
    match Re202::classify_inbound(&bytes) {
        DeviceInbound::Dump { area, .. } => assert_eq!(area.as_deref(), Some("system")),
        other => panic!("expected Dump, got {other:?}"),
    }
}

#[test]
fn every_user_slot_is_named_after_its_number() {
    for n in 1..=127u8 {
        let name = format!("memory-{n}");
        assert_eq!(
            area_for_address(MemorySlot::User(n).base_address()).as_deref(),
            Some(name.as_str())
        );
        let dump = Frame::data_set(0x10, MemorySlot::User(n).base_address(), vec![0]).encode();
        match Re202::classify_inbound(&dump) {
            DeviceInbound::Dump { area, .. } => assert_eq!(area.as_deref(), Some(name.as_str())),
            other => panic!("expected Dump, got {other:?}"),
        }
    }
}

#[test]
fn classify_inbound_requests_and_other_bytes() {
    let rq = Frame::data_request(0x10, [0x20, 0x00, 0x00, 0x00], [0, 0, 0, 33]).encode();
    assert_eq!(
        Re202::classify_inbound(&rq),
        DeviceInbound::Request {
            address: vec![0x20, 0x00, 0x00, 0x00]
        }
    );
    assert_eq!(
        Re202::classify_inbound(&[0x90, 0x40, 0x7F]),
        DeviceInbound::Other(vec![0x90, 0x40, 0x7F])
    );
    assert_eq!(
        Re202::classify_inbound(&[0xF0, 0x42, 0xF7]),
        DeviceInbound::Other(vec![0xF0, 0x42, 0xF7])
    );
    let edit = Frame::data_set(0x10, EDIT_BUFFER_BASE, vec![1]).encode();
    assert_eq!(
        Re202::classify_inbound(&edit),
        DeviceInbound::Dump {
            area: Some("edit".to_string()),
            address: EDIT_BUFFER_BASE.to_vec(),
            data: vec![1],
        }
    );
}

#[test]
fn identity_detection() {
    assert_eq!(classify_identity(&[0xF0, 0x7E, 0x10, 0x06, 0x01, 0xF7]), None);
    assert_eq!(classify_identity(&[0xF0, 0x7E, 0x10, 0x06, 0x02, 0x41]), Some(None));
    assert_eq!(
        classify_identity(&[0xF0, 0x7E, 0x7F, 0x06, 0x02, 0x41, 0x18, 0x04]),
        Some(Some("RE-202".to_string()))
    );
}

#[test]
fn area_names_for_addresses() {
    assert_eq!(area_for_address([0x10, 0x00, 0x00, 0x00]).as_deref(), Some("system"));
    assert_eq!(area_for_address([0x10, 0x00, 0x00, 0x11]).as_deref(), Some("system"));
    assert_eq!(area_for_address(EDIT_BUFFER_BASE).as_deref(), Some("edit"));
    assert_eq!(area_for_address([0x20, 0x10, 0x00, 0x00]).as_deref(), Some("memory"));
    assert_eq!(area_for_address([0x20, 0x20, 0x00, 0x00]).as_deref(), Some("memory-1"));
    assert_eq!(area_for_address([0x20, 0x70, 0x00, 0x00]).as_deref(), Some("memory-6"));
    assert_eq!(area_for_address([0x30, 0x00, 0x00, 0x00]).as_deref(), Some("memory-127"));
    // Slots 7..=126 carry into 0x21..=0x2F.
    assert_eq!(area_for_address([0x21, 0x00, 0x00, 0x00]).as_deref(), Some("memory-7"));
    assert_eq!(area_for_address([0x25, 0x30, 0x00, 0x00]).as_deref(), Some("memory-42"));
    assert_eq!(area_for_address([0x2F, 0x70, 0x00, 0x00]).as_deref(), Some("memory-126"));
    assert_eq!(area_for_address([0x20, 0x20, 0x00, 0x01]), None);
    assert_eq!(area_for_address([0x40, 0x00, 0x00, 0x00]), None);
}

#[test]
fn areas_cover_system_memory_edit_and_127_slots() {
    let areas = build_areas();
    assert_eq!(areas.len(), 3 + 127);
    assert!(areas.iter().any(|a| a.name == "system"));
    assert!(areas.iter().any(|a| a.name == "memory"));
    assert!(areas.iter().any(|a| a.name == "edit"));
    assert!(areas.iter().any(|a| a.name == "memory-1"));
    assert!(areas.iter().any(|a| a.name == "memory-127"));
    assert_eq!(
        areas.iter().find(|a| a.name == "system").unwrap().label,
        "System area"
    );
    assert_eq!(
        areas.iter().find(|a| a.name == "memory").unwrap().label,
        "Memory block"
    );
    for a in &areas {
        assert!(target_for(&a.name).is_some(), "{} resolves", a.name);
    }
}

#[test]
fn wire_helpers() {
    assert_eq!(roland_device_id(0), 0x10);
    assert_eq!(roland_device_id(15), 0x1F);
    assert_eq!(roland_device_id(0xF0), 0x00);
    assert_eq!(size_field(18), [0x00, 0x00, 0x00, 0x12]);
    assert_eq!(size_field(33), [0x00, 0x00, 0x00, 0x21]);
    assert_eq!(size_field(0x0FFF_FFFF), [0x7F, 0x7F, 0x7F, 0x7F]);
    assert_eq!(size_field(200), [0x00, 0x00, 0x01, 0x48]);
    assert_eq!(decimal_string(0), "0");
    assert_eq!(decimal_string(9), "9");
    assert_eq!(decimal_string(42), "42");
    assert_eq!(decimal_string(255), "255");
}

#[test]
fn catalogs_are_empty() {
    let c = Re202Catalogs;
    assert!(c.resolve("anything", "name").is_none());
    assert!(c.label("anything", 0).is_none());
    assert!(c.names().is_empty());
}
