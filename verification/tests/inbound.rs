use re202_core::{classify_inbound, Frame, InboundMessage, SysExError};

#[test]
fn classifies_system_dt1() {
    let bytes = [
        0xF0, 0x41, 0x10, 0x00, 0x00, 0x00, 0x00, 0x18, 0x12, 0x10, 0x00, 0x00, 0x00, 0x00,
        0x70, 0xF7,
    ];
    match classify_inbound(&bytes) {
        InboundMessage::SystemDataSet {
            device_id,
            address,
            data,
        } => {
            assert_eq!(device_id, 0x10);
            assert_eq!(address, [0x10, 0x00, 0x00, 0x00]);
            assert_eq!(data, vec![0x00]);
        }
        other => panic!("expected SystemDataSet, got {other:?}"),
    }
}

#[test]
fn classifies_non_sysex() {
    let bytes = [0x90, 0x40, 0x7F];
    assert!(matches!(
        classify_inbound(&bytes),
        InboundMessage::NonSysEx(_)
    ));
}

#[test]
fn classifies_unparseable_sysex() {
    let bytes = [0xF0, 0x42, 0x00, 0xF7];
    assert!(matches!(
        classify_inbound(&bytes),
        InboundMessage::UnparseableSysEx { .. }
    ));
}

#[test]
fn classifies_empty_input_as_non_sysex() {
    assert_eq!(classify_inbound(&[]), InboundMessage::NonSysEx(vec![]));
}

#[test]
fn unparseable_carries_bytes_and_error() {
    let bytes = [0xF0, 0x42, 0x00, 0xF7];
    assert_eq!(
        classify_inbound(&bytes),
        InboundMessage::UnparseableSysEx {
            bytes: bytes.to_vec(),
            error: SysExError::TooShort(4),
        }
    );
}

#[test]
fn classifies_memory_unknown_and_request_frames() {
    let mem = Frame::data_set(0x11, [0x20, 0x20, 0x00, 0x00], vec![1, 2, 3]).encode();
    assert_eq!(
        classify_inbound(&mem),
        InboundMessage::MemoryDataSet {
            device_id: 0x11,
            address: [0x20, 0x20, 0x00, 0x00],
            data: vec![1, 2, 3],
        }
    );
    let slot7 = Frame::data_set(0x10, [0x21, 0x00, 0x00, 0x00], vec![9]).encode();
    assert_eq!(
        classify_inbound(&slot7),
        InboundMessage::MemoryDataSet {
            device_id: 0x10,
            address: [0x21, 0x00, 0x00, 0x00],
            data: vec![9],
        }
    );
    let unknown = Frame::data_set(0x10, [0x40, 0x00, 0x00, 0x00], vec![9]).encode();
    assert!(matches!(
        classify_inbound(&unknown),
        InboundMessage::UnknownDataSet { address: [0x40, 0x00, 0x00, 0x00], .. }
    ));
    let rq = Frame::data_request(0x10, [0x10, 0x00, 0x00, 0x00], [0, 0, 0, 0x12]).encode();
    assert_eq!(
        classify_inbound(&rq),
        InboundMessage::DataRequest {
            device_id: 0x10,
            address: [0x10, 0x00, 0x00, 0x00],
            size: vec![0, 0, 0, 0x12],
        }
    );
}
