//! Classify any byte sequence that arrived from the device.
use vstd::prelude::*;

use crate::address::{self, AddressSpace};
use crate::sysex::{self, Frame, SysExError, CMD_DT1, CMD_RQ1, SYSEX_START};

verus! {

#[derive(Debug, Clone, PartialEq, Eq)]
pub enum InboundMessage {
    /// A well-formed DT1 frame addressed to the System area.
    SystemDataSet { device_id: u8, address: [u8; 4], data: Vec<u8> },
    /// A well-formed DT1 frame addressed to a Memory slot.
    MemoryDataSet { device_id: u8, address: [u8; 4], data: Vec<u8> },
    /// A well-formed DT1 frame at an unclassified address.
    UnknownDataSet { device_id: u8, address: [u8; 4], data: Vec<u8> },
    /// A well-formed RQ1 frame.
    DataRequest { device_id: u8, address: [u8; 4], size: Vec<u8> },
    /// SysEx that could not be decoded as a Roland RE-202 frame.
    UnparseableSysEx { bytes: Vec<u8>, error: SysExError },
    /// Bytes that were not a SysEx frame at all (Note On/Off, CC, etc.).
    NonSysEx(Vec<u8>),
}

/// `m` is what the device's bytes `b` are: not SysEx unless they start with `F0`; a frame
/// the decoder rejects is unparseable (with the decoder's error); an accepted DT1 frame is
/// a data set of the address space its address falls in; an accepted RQ1 frame is a data
/// request. Every variant carries the frame's own bytes.
pub open spec fn is_classification_of(m: InboundMessage, b: Seq<u8>) -> bool {
    if b.len() == 0 || b[0] != SYSEX_START {
        m matches InboundMessage::NonSysEx(v) && v@ == b
    } else if sysex::spec_decode_error(b) is Some {
        &&& m matches InboundMessage::UnparseableSysEx { bytes, error }
        &&& bytes@ == b
        &&& Some(error) == sysex::spec_decode_error(b)
    } else if b[8] == CMD_DT1 {
        match address::spec_classify(b[9]) {
            AddressSpace::System => {
                &&& m matches InboundMessage::SystemDataSet { device_id, address, data }
                &&& device_id == b[2]
                &&& address@ == b.subrange(9, 13)
                &&& data@ == sysex::payload(b)
            },
            AddressSpace::Memory => {
                &&& m matches InboundMessage::MemoryDataSet { device_id, address, data }
                &&& device_id == b[2]
                &&& address@ == b.subrange(9, 13)
                &&& data@ == sysex::payload(b)
            },
            AddressSpace::Unknown => {
                &&& m matches InboundMessage::UnknownDataSet { device_id, address, data }
                &&& device_id == b[2]
                &&& address@ == b.subrange(9, 13)
                &&& data@ == sysex::payload(b)
            },
        }
    } else {
        &&& m matches InboundMessage::DataRequest { device_id, address, size }
        &&& device_id == b[2]
        &&& address@ == b.subrange(9, 13)
        &&& size@ == sysex::payload(b)
    }
}

/// Classify a complete inbound MIDI byte sequence.
pub fn classify_inbound(bytes: &[u8]) -> (m: InboundMessage)
    ensures
        is_classification_of(m, bytes@),
{
    let starts_sysex = bytes.len() > 0 && bytes[0] == SYSEX_START;
    if !starts_sysex {
        return InboundMessage::NonSysEx(vstd::slice::slice_to_vec(bytes));
    }
    match Frame::decode(bytes) {
        Ok(frame) => {
            if frame.command == CMD_DT1 {
                assert(frame.address@[0] == bytes@[9]);
                match AddressSpace::classify(frame.address) {
                    AddressSpace::System => InboundMessage::SystemDataSet {
                        device_id: frame.device_id,
                        address: frame.address,
                        data: frame.data,
                    },
                    AddressSpace::Memory => InboundMessage::MemoryDataSet {
                        device_id: frame.device_id,
                        address: frame.address,
                        data: frame.data,
                    },
                    AddressSpace::Unknown => InboundMessage::UnknownDataSet {
                        device_id: frame.device_id,
                        address: frame.address,
                        data: frame.data,
                    },
                }
            } else {
                // The decoder accepts only DT1 and RQ1 commands.
                assert(frame.command == CMD_RQ1);
                InboundMessage::DataRequest {
                    device_id: frame.device_id,
                    address: frame.address,
                    size: frame.data,
                }
            }
        },
        Err(error) => InboundMessage::UnparseableSysEx {
            bytes: vstd::slice::slice_to_vec(bytes),
            error,
        },
    }
}

/// Whatever the codec encodes comes back classified as what it is: a DT1 frame as a data
/// set of its address's space, an RQ1 frame as a data request, each with the frame's
/// device id, address and payload.
pub proof fn lemma_classify_encoded_frame(f: Frame, m: InboundMessage)
    requires
        f.wf(),
        is_classification_of(m, f.spec_encode()),
    ensures
        f.command == CMD_DT1 ==> (match address::spec_classify(f.address@[0]) {
            AddressSpace::System => m matches InboundMessage::SystemDataSet {
                device_id,
                address,
                data,
            } && device_id == f.device_id && address@ == f.address@ && data@ == f.data@,
            AddressSpace::Memory => m matches InboundMessage::MemoryDataSet {
                device_id,
                address,
                data,
            } && device_id == f.device_id && address@ == f.address@ && data@ == f.data@,
            AddressSpace::Unknown => m matches InboundMessage::UnknownDataSet {
                device_id,
                address,
                data,
            } && device_id == f.device_id && address@ == f.address@ && data@ == f.data@,
        }),
        f.command == CMD_RQ1 ==> (m matches InboundMessage::DataRequest { device_id, address, size }
            && device_id == f.device_id && address@ == f.address@ && size@ == f.data@),
{
    sysex::lemma_decode_inverts_encode(f);
    let b = f.spec_encode();
    assert(b[0] == SYSEX_START);
    assert(b[9] == f.address@[0]);
}

} // verus!
