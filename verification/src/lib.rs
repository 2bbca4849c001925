//! Pure codec for the BOSS RE-202 Space Echo SysEx protocol: SysEx framing, the address
//! map, the typed System / Memory models and inbound classification. No I/O.
pub mod address;
pub mod catalog;
pub mod codec;
pub mod device;
pub mod inbound;
pub mod memory;
pub mod sysex;
pub mod system;

pub use codec::CodecError;
pub use device::Re202;
pub use inbound::{classify_inbound, InboundMessage};
pub use memory::{Memory, Mode, RangedParam, Tape};
pub use sysex::{Frame, SysExError, CMD_DT1, CMD_RQ1, RE202_MODEL_ID, ROLAND_ID};
pub use system::{
    Ctl1Function, Ctl2Function, DirectMode, DirectSettings, InputSource, MidiChannel, MidiSettings,
    RealtimeSource, ReverbType, SyncSource, SystemArea, TimeMode, TxChannel,
};
