//! System area (global settings) — `10 00 00 00`, 18 bytes.
use vstd::prelude::*;

use crate::codec::{self, bool_to_byte, byte_to_bool, CodecError};
use crate::sysex;

verus! {

/// Length of the encoded System area in bytes.
pub const SYSTEM_AREA_LEN: usize = 18;

/// Typed view of the System area.
///
/// Fields are ordered as in the byte layout: `direct.*` covers offsets 0x03..=0x04,
/// `midi.*` covers offsets 0x09..=0x11.
#[derive(Debug, Clone, PartialEq, Eq)]
pub struct SystemArea {
    pub input_source: InputSource,
    pub ctl1_function: Ctl1Function,
    pub ctl2_function: Ctl2Function,
    pub direct: DirectSettings,
    pub carryover: bool,
    pub time_mode: TimeMode,
    pub reverb_type: ReverbType,
    /// 1..=4 — number of memory slots cycled by the MEMORY footswitch.
    pub memory_extent: u8,
    pub midi: MidiSettings,
}

#[derive(Debug, Clone, PartialEq, Eq)]
pub struct DirectSettings {
    pub on: bool,
    pub mode: DirectMode,
}

#[derive(Debug, Clone, PartialEq, Eq)]
pub struct MidiSettings {
    pub rx_channel: MidiChannel,
    pub tx_channel: TxChannel,
    pub pc_in: bool,
    pub pc_out: bool,
    pub cc_in: bool,
    pub cc_out: bool,
    pub sync_source: SyncSource,
    pub realtime_source: RealtimeSource,
    pub thru: bool,
}

#[derive(Debug, Clone, Copy, PartialEq, Eq, Structural)]
pub enum InputSource {
    Guitar,
    Line,
}

#[derive(Debug, Clone, Copy, PartialEq, Eq, Structural)]
pub enum Ctl1Function {
    MemoryUp,
    MemoryDown,
    EffectOnOff,
    Tap,
    Warp,
}

#[derive(Debug, Clone, Copy, PartialEq, Eq, Structural)]
pub enum Ctl2Function {
    MemoryUp,
    MemoryDown,
    EffectOnOff,
    Tap,
    Twist,
}

#[derive(Debug, Clone, Copy, PartialEq, Eq, Structural)]
pub enum DirectMode {
    Analog,
    Re201Simulate,
}

#[derive(Debug, Clone, Copy, PartialEq, Eq, Structural)]
pub enum TimeMode {
    Normal,
    Long,
}

#[derive(Debug, Clone, Copy, PartialEq, Eq, Structural)]
pub enum ReverbType {
    Spring,
    Hall,
    Plate,
    Room,
    Ambience,
}

/// MIDI Rx channel — `off` or `1..=16`.
#[derive(Debug, Clone, Copy, PartialEq, Eq, Structural)]
pub enum MidiChannel {
    Channel(u8),
    Symbolic(MidiChannelSymbol),
}

#[derive(Debug, Clone, Copy, PartialEq, Eq, Structural)]
pub enum MidiChannelSymbol {
    Off,
}

/// MIDI Tx channel — `off`, `1..=16`, or `rx` (follows the RX channel).
#[derive(Debug, Clone, Copy, PartialEq, Eq, Structural)]
pub enum TxChannel {
    Channel(u8),
    Symbolic(TxChannelSymbol),
}

#[derive(Debug, Clone, Copy, PartialEq, Eq, Structural)]
pub enum TxChannelSymbol {
    Off,
    Rx,
}

#[derive(Debug, Clone, Copy, PartialEq, Eq, Structural)]
pub enum SyncSource {
    Internal,
    Auto,
}

#[derive(Debug, Clone, Copy, PartialEq, Eq, Structural)]
pub enum RealtimeSource {
    Internal,
    Midi,
}

// === enum byte mappings ===

impl InputSource {
    /// Decoding then re-encoding a byte gives that byte back.
    pub proof fn lemma_byte_round_trip(b: u8)
        ensures
            Self::spec_from_byte(b) is Ok ==> (Self::spec_from_byte(b)->Ok_0).spec_to_byte() == b,
    {
        reveal(InputSource::spec_to_byte);
    }

    /// Every value decodes back from its own byte.
    pub proof fn lemma_value_round_trip(self)
        ensures
            Self::spec_from_byte(self.spec_to_byte()) == Ok::<Self, CodecError>(self),
            self.spec_to_byte() < 0x80,
    {
        reveal(InputSource::spec_to_byte);
    }

    pub open spec fn spec_from_byte(b: u8) -> Result<Self, CodecError> {
        if b == 0 {
            Ok(Self::Guitar)
        } else if b == 1 {
            Ok(Self::Line)
        } else {
            Err(CodecError::InvalidValue { field: "input_source", value: b, valid: "0=guitar, 1=line" })
        }
    }

    #[verifier::opaque]
    pub open spec fn spec_to_byte(self) -> u8 {
        match self {
            Self::Guitar => 0,
            Self::Line => 1,
        }
    }

    pub fn from_byte(b: u8) -> (r: Result<Self, CodecError>)
        ensures
            r == Self::spec_from_byte(b),
    {
        match b {
            0 => Ok(Self::Guitar),
            1 => Ok(Self::Line),
            _ => Err(
                CodecError::InvalidValue { field: "input_source", value: b, valid: "0=guitar, 1=line" },
            ),
        }
    }

    pub fn to_byte(self) -> (b: u8)
        ensures
            b == self.spec_to_byte(),
    {
        reveal(InputSource::spec_to_byte);
        match self {
            Self::Guitar => 0,
            Self::Line => 1,
        }
    }
}

impl Ctl1Function {
    /// Decoding then re-encoding a byte gives that byte back.
    pub proof fn lemma_byte_round_trip(b: u8)
        ensures
            Self::spec_from_byte(b) is Ok ==> (Self::spec_from_byte(b)->Ok_0).spec_to_byte() == b,
    {
        reveal(Ctl1Function::spec_to_byte);
    }

    /// Every value decodes back from its own byte.
    pub proof fn lemma_value_round_trip(self)
        ensures
            Self::spec_from_byte(self.spec_to_byte()) == Ok::<Self, CodecError>(self),
            self.spec_to_byte() < 0x80,
    {
        reveal(Ctl1Function::spec_to_byte);
    }

    pub open spec fn spec_from_byte(b: u8) -> Result<Self, CodecError> {
        if b == 0 {
            Ok(Self::MemoryUp)
        } else if b == 1 {
            Ok(Self::MemoryDown)
        } else if b == 2 {
            Ok(Self::EffectOnOff)
        } else if b == 3 {
            Ok(Self::Tap)
        } else if b == 4 {
            Ok(Self::Warp)
        } else {
            Err(CodecError::InvalidValue { field: "ctl1_function", value: b, valid: "0..=4" })
        }
    }

    #[verifier::opaque]
    pub open spec fn spec_to_byte(self) -> u8 {
        match self {
            Self::MemoryUp => 0,
            Self::MemoryDown => 1,
            Self::EffectOnOff => 2,
            Self::Tap => 3,
            Self::Warp => 4,
        }
    }

    pub fn from_byte(b: u8) -> (r: Result<Self, CodecError>)
        ensures
            r == Self::spec_from_byte(b),
    {
        match b {
            0 => Ok(Self::MemoryUp),
            1 => Ok(Self::MemoryDown),
            2 => Ok(Self::EffectOnOff),
            3 => Ok(Self::Tap),
            4 => Ok(Self::Warp),
            _ => Err(CodecError::InvalidValue { field: "ctl1_function", value: b, valid: "0..=4" }),
        }
    }

    pub fn to_byte(self) -> (b: u8)
        ensures
            b == self.spec_to_byte(),
    {
        reveal(Ctl1Function::spec_to_byte);
        match self {
            Self::MemoryUp => 0,
            Self::MemoryDown => 1,
            Self::EffectOnOff => 2,
            Self::Tap => 3,
            Self::Warp => 4,
        }
    }
}

impl Ctl2Function {
    /// Decoding then re-encoding a byte gives that byte back.
    pub proof fn lemma_byte_round_trip(b: u8)
        ensures
            Self::spec_from_byte(b) is Ok ==> (Self::spec_from_byte(b)->Ok_0).spec_to_byte() == b,
    {
        reveal(Ctl2Function::spec_to_byte);
    }

    /// Every value decodes back from its own byte.
    pub proof fn lemma_value_round_trip(self)
        ensures
            Self::spec_from_byte(self.spec_to_byte()) == Ok::<Self, CodecError>(self),
            self.spec_to_byte() < 0x80,
    {
        reveal(Ctl2Function::spec_to_byte);
    }

    pub open spec fn spec_from_byte(b: u8) -> Result<Self, CodecError> {
        if b == 0 {
            Ok(Self::MemoryUp)
        } else if b == 1 {
            Ok(Self::MemoryDown)
        } else if b == 2 {
            Ok(Self::EffectOnOff)
        } else if b == 3 {
            Ok(Self::Tap)
        } else if b == 4 {
            Ok(Self::Twist)
        } else {
            Err(CodecError::InvalidValue { field: "ctl2_function", value: b, valid: "0..=4" })
        }
    }

    #[verifier::opaque]
    pub open spec fn spec_to_byte(self) -> u8 {
        match self {
            Self::MemoryUp => 0,
            Self::MemoryDown => 1,
            Self::EffectOnOff => 2,
            Self::Tap => 3,
            Self::Twist => 4,
        }
    }

    pub fn from_byte(b: u8) -> (r: Result<Self, CodecError>)
        ensures
            r == Self::spec_from_byte(b),
    {
        match b {
            0 => Ok(Self::MemoryUp),
            1 => Ok(Self::MemoryDown),
            2 => Ok(Self::EffectOnOff),
            3 => Ok(Self::Tap),
            4 => Ok(Self::Twist),
            _ => Err(CodecError::InvalidValue { field: "ctl2_function", value: b, valid: "0..=4" }),
        }
    }

    pub fn to_byte(self) -> (b: u8)
        ensures
            b == self.spec_to_byte(),
    {
        reveal(Ctl2Function::spec_to_byte);
        match self {
            Self::MemoryUp => 0,
            Self::MemoryDown => 1,
            Self::EffectOnOff => 2,
            Self::Tap => 3,
            Self::Twist => 4,
        }
    }
}

impl DirectMode {
    /// Decoding then re-encoding a byte gives that byte back.
    pub proof fn lemma_byte_round_trip(b: u8)
        ensures
            Self::spec_from_byte(b) is Ok ==> (Self::spec_from_byte(b)->Ok_0).spec_to_byte() == b,
    {
        reveal(DirectMode::spec_to_byte);
    }

    /// Every value decodes back from its own byte.
    pub proof fn lemma_value_round_trip(self)
        ensures
            Self::spec_from_byte(self.spec_to_byte()) == Ok::<Self, CodecError>(self),
            self.spec_to_byte() < 0x80,
    {
        reveal(DirectMode::spec_to_byte);
    }

    pub open spec fn spec_from_byte(b: u8) -> Result<Self, CodecError> {
        if b == 0 {
            Ok(Self::Analog)
        } else if b == 1 {
            Ok(Self::Re201Simulate)
        } else {
            Err(
                CodecError::InvalidValue {
                    field: "direct.mode",
                    value: b,
                    valid: "0=analog, 1=re201_simulate",
                },
            )
        }
    }

    #[verifier::opaque]
    pub open spec fn spec_to_byte(self) -> u8 {
        match self {
            Self::Analog => 0,
            Self::Re201Simulate => 1,
        }
    }

    pub fn from_byte(b: u8) -> (r: Result<Self, CodecError>)
        ensures
            r == Self::spec_from_byte(b),
    {
        match b {
            0 => Ok(Self::Analog),
            1 => Ok(Self::Re201Simulate),
            _ => Err(
                CodecError::InvalidValue {
                    field: "direct.mode",
                    value: b,
                    valid: "0=analog, 1=re201_simulate",
                },
            ),
        }
    }

    pub fn to_byte(self) -> (b: u8)
        ensures
            b == self.spec_to_byte(),
    {
        reveal(DirectMode::spec_to_byte);
        match self {
            Self::Analog => 0,
            Self::Re201Simulate => 1,
        }
    }
}

impl TimeMode {
    /// Decoding then re-encoding a byte gives that byte back.
    pub proof fn lemma_byte_round_trip(b: u8)
        ensures
            Self::spec_from_byte(b) is Ok ==> (Self::spec_from_byte(b)->Ok_0).spec_to_byte() == b,
    {
        reveal(TimeMode::spec_to_byte);
    }

    /// Every value decodes back from its own byte.
    pub proof fn lemma_value_round_trip(self)
        ensures
            Self::spec_from_byte(self.spec_to_byte()) == Ok::<Self, CodecError>(self),
            self.spec_to_byte() < 0x80,
    {
        reveal(TimeMode::spec_to_byte);
    }

    pub open spec fn spec_from_byte(b: u8) -> Result<Self, CodecError> {
        if b == 0 {
            Ok(Self::Normal)
        } else if b == 1 {
            Ok(Self::Long)
        } else {
            Err(CodecError::InvalidValue { field: "time_mode", value: b, valid: "0=normal, 1=long" })
        }
    }

    #[verifier::opaque]
    pub open spec fn spec_to_byte(self) -> u8 {
        match self {
            Self::Normal => 0,
            Self::Long => 1,
        }
    }

    pub fn from_byte(b: u8) -> (r: Result<Self, CodecError>)
        ensures
            r == Self::spec_from_byte(b),
    {
        match b {
            0 => Ok(Self::Normal),
            1 => Ok(Self::Long),
            _ => Err(
                CodecError::InvalidValue { field: "time_mode", value: b, valid: "0=normal, 1=long" },
            ),
        }
    }

    pub fn to_byte(self) -> (b: u8)
        ensures
            b == self.spec_to_byte(),
    {
        reveal(TimeMode::spec_to_byte);
        match self {
            Self::Normal => 0,
            Self::Long => 1,
        }
    }
}

impl ReverbType {
    /// Decoding then re-encoding a byte gives that byte back.
    pub proof fn lemma_byte_round_trip(b: u8)
        ensures
            Self::spec_from_byte(b) is Ok ==> (Self::spec_from_byte(b)->Ok_0).spec_to_byte() == b,
    {
        reveal(ReverbType::spec_to_byte);
    }

    /// Every value decodes back from its own byte.
    pub proof fn lemma_value_round_trip(self)
        ensures
            Self::spec_from_byte(self.spec_to_byte()) == Ok::<Self, CodecError>(self),
            self.spec_to_byte() < 0x80,
    {
        reveal(ReverbType::spec_to_byte);
    }

    pub open spec fn spec_from_byte(b: u8) -> Result<Self, CodecError> {
        if b == 0 {
            Ok(Self::Spring)
        } else if b == 1 {
            Ok(Self::Hall)
        } else if b == 2 {
            Ok(Self::Plate)
        } else if b == 3 {
            Ok(Self::Room)
        } else if b == 4 {
            Ok(Self::Ambience)
        } else {
            Err(CodecError::InvalidValue { field: "reverb_type", value: b, valid: "0..=4" })
        }
    }

    #[verifier::opaque]
    pub open spec fn spec_to_byte(self) -> u8 {
        match self {
            Self::Spring => 0,
            Self::Hall => 1,
            Self::Plate => 2,
            Self::Room => 3,
            Self::Ambience => 4,
        }
    }

    pub fn from_byte(b: u8) -> (r: Result<Self, CodecError>)
        ensures
            r == Self::spec_from_byte(b),
    {
        match b {
            0 => Ok(Self::Spring),
            1 => Ok(Self::Hall),
            2 => Ok(Self::Plate),
            3 => Ok(Self::Room),
            4 => Ok(Self::Ambience),
            _ => Err(CodecError::InvalidValue { field: "reverb_type", value: b, valid: "0..=4" }),
        }
    }

    pub fn to_byte(self) -> (b: u8)
        ensures
            b == self.spec_to_byte(),
    {
        reveal(ReverbType::spec_to_byte);
        match self {
            Self::Spring => 0,
            Self::Hall => 1,
            Self::Plate => 2,
            Self::Room => 3,
            Self::Ambience => 4,
        }
    }
}

impl MidiChannel {
    /// Decoding then re-encoding a byte gives that byte back.
    pub proof fn lemma_byte_round_trip(b: u8)
        ensures
            Self::spec_from_byte(b) is Ok ==> (Self::spec_from_byte(b)->Ok_0).spec_to_byte() == b,
            Self::spec_from_byte(b) is Ok ==> (Self::spec_from_byte(b)->Ok_0).wf(),
    {
        reveal(MidiChannel::spec_to_byte);
    }

    /// A well-formed value decodes back from its own byte.
    pub proof fn lemma_value_round_trip(self)
        requires
            self.wf(),
        ensures
            Self::spec_from_byte(self.spec_to_byte()) == Ok::<Self, CodecError>(self),
            self.spec_to_byte() < 0x80,
    {
        reveal(MidiChannel::spec_to_byte);
    }

    pub open spec fn spec_from_byte(b: u8) -> Result<Self, CodecError> {
        if b == 0 {
            Ok(Self::Symbolic(MidiChannelSymbol::Off))
        } else if 1 <= b <= 16 {
            Ok(Self::Channel(b))
        } else {
            Err(
                CodecError::InvalidValue {
                    field: "midi.rx_channel",
                    value: b,
                    valid: "0 (=off) or 1..=16",
                },
            )
        }
    }

    #[verifier::opaque]
    pub open spec fn spec_to_byte(self) -> u8 {
        match self {
            Self::Symbolic(MidiChannelSymbol::Off) => 0,
            Self::Channel(n) => n,
        }
    }

    /// A channel value that survives an encode / decode round trip.
    pub open spec fn wf(self) -> bool {
        self matches Self::Channel(n) ==> 1 <= n <= 16
    }

    pub fn from_byte(b: u8) -> (r: Result<Self, CodecError>)
        ensures
            r == Self::spec_from_byte(b),
    {
        match b {
            0 => Ok(Self::Symbolic(MidiChannelSymbol::Off)),
            1..=16 => Ok(Self::Channel(b)),
            _ => Err(
                CodecError::InvalidValue {
                    field: "midi.rx_channel",
                    value: b,
                    valid: "0 (=off) or 1..=16",
                },
            ),
        }
    }

    pub fn to_byte(self) -> (b: u8)
        ensures
            b == self.spec_to_byte(),
    {
        reveal(MidiChannel::spec_to_byte);
        match self {
            Self::Symbolic(MidiChannelSymbol::Off) => 0,
            Self::Channel(n) => n,
        }
    }
}

impl TxChannel {
    /// Decoding then re-encoding a byte gives that byte back.
    pub proof fn lemma_byte_round_trip(b: u8)
        ensures
            Self::spec_from_byte(b) is Ok ==> (Self::spec_from_byte(b)->Ok_0).spec_to_byte() == b,
            Self::spec_from_byte(b) is Ok ==> (Self::spec_from_byte(b)->Ok_0).wf(),
    {
        reveal(TxChannel::spec_to_byte);
    }

    /// A well-formed value decodes back from its own byte.
    pub proof fn lemma_value_round_trip(self)
        requires
            self.wf(),
        ensures
            Self::spec_from_byte(self.spec_to_byte()) == Ok::<Self, CodecError>(self),
            self.spec_to_byte() < 0x80,
    {
        reveal(TxChannel::spec_to_byte);
    }

    pub open spec fn spec_from_byte(b: u8) -> Result<Self, CodecError> {
        if b == 0 {
            Ok(Self::Symbolic(TxChannelSymbol::Off))
        } else if 1 <= b <= 16 {
            Ok(Self::Channel(b))
        } else if b == 17 {
            Ok(Self::Symbolic(TxChannelSymbol::Rx))
        } else {
            Err(
                CodecError::InvalidValue {
                    field: "midi.tx_channel",
                    value: b,
                    valid: "0 (=off), 1..=16, or 17 (=rx)",
                },
            )
        }
    }

    #[verifier::opaque]
    pub open spec fn spec_to_byte(self) -> u8 {
        match self {
            Self::Symbolic(TxChannelSymbol::Off) => 0,
            Self::Channel(n) => n,
            Self::Symbolic(TxChannelSymbol::Rx) => 17,
        }
    }

    /// A channel value that survives an encode / decode round trip.
    pub open spec fn wf(self) -> bool {
        self matches Self::Channel(n) ==> 1 <= n <= 16
    }

    pub fn from_byte(b: u8) -> (r: Result<Self, CodecError>)
        ensures
            r == Self::spec_from_byte(b),
    {
        match b {
            0 => Ok(Self::Symbolic(TxChannelSymbol::Off)),
            1..=16 => Ok(Self::Channel(b)),
            17 => Ok(Self::Symbolic(TxChannelSymbol::Rx)),
            _ => Err(
                CodecError::InvalidValue {
                    field: "midi.tx_channel",
                    value: b,
                    valid: "0 (=off), 1..=16, or 17 (=rx)",
                },
            ),
        }
    }

    pub fn to_byte(self) -> (b: u8)
        ensures
            b == self.spec_to_byte(),
    {
        reveal(TxChannel::spec_to_byte);
        match self {
            Self::Symbolic(TxChannelSymbol::Off) => 0,
            Self::Channel(n) => n,
            Self::Symbolic(TxChannelSymbol::Rx) => 17,
        }
    }
}

impl SyncSource {
    /// Decoding then re-encoding a byte gives that byte back.
    pub proof fn lemma_byte_round_trip(b: u8)
        ensures
            Self::spec_from_byte(b) is Ok ==> (Self::spec_from_byte(b)->Ok_0).spec_to_byte() == b,
    {
        reveal(SyncSource::spec_to_byte);
    }

    /// Every value decodes back from its own byte.
    pub proof fn lemma_value_round_trip(self)
        ensures
            Self::spec_from_byte(self.spec_to_byte()) == Ok::<Self, CodecError>(self),
            self.spec_to_byte() < 0x80,
    {
        reveal(SyncSource::spec_to_byte);
    }

    pub open spec fn spec_from_byte(b: u8) -> Result<Self, CodecError> {
        if b == 0 {
            Ok(Self::Internal)
        } else if b == 1 {
            Ok(Self::Auto)
        } else {
            Err(
                CodecError::InvalidValue {
                    field: "midi.sync_source",
                    value: b,
                    valid: "0=internal, 1=auto",
                },
            )
        }
    }

    #[verifier::opaque]
    pub open spec fn spec_to_byte(self) -> u8 {
        match self {
            Self::Internal => 0,
            Self::Auto => 1,
        }
    }

    pub fn from_byte(b: u8) -> (r: Result<Self, CodecError>)
        ensures
            r == Self::spec_from_byte(b),
    {
        match b {
            0 => Ok(Self::Internal),
            1 => Ok(Self::Auto),
            _ => Err(
                CodecError::InvalidValue {
                    field: "midi.sync_source",
                    value: b,
                    valid: "0=internal, 1=auto",
                },
            ),
        }
    }

    pub fn to_byte(self) -> (b: u8)
        ensures
            b == self.spec_to_byte(),
    {
        reveal(SyncSource::spec_to_byte);
        match self {
            Self::Internal => 0,
            Self::Auto => 1,
        }
    }
}

impl RealtimeSource {
    /// Decoding then re-encoding a byte gives that byte back.
    pub proof fn lemma_byte_round_trip(b: u8)
        ensures
            Self::spec_from_byte(b) is Ok ==> (Self::spec_from_byte(b)->Ok_0).spec_to_byte() == b,
    {
        reveal(RealtimeSource::spec_to_byte);
    }

    /// Every value decodes back from its own byte.
    pub proof fn lemma_value_round_trip(self)
        ensures
            Self::spec_from_byte(self.spec_to_byte()) == Ok::<Self, CodecError>(self),
            self.spec_to_byte() < 0x80,
    {
        reveal(RealtimeSource::spec_to_byte);
    }

    pub open spec fn spec_from_byte(b: u8) -> Result<Self, CodecError> {
        if b == 0 {
            Ok(Self::Internal)
        } else if b == 1 {
            Ok(Self::Midi)
        } else {
            Err(
                CodecError::InvalidValue {
                    field: "midi.realtime_source",
                    value: b,
                    valid: "0=internal, 1=midi",
                },
            )
        }
    }

    #[verifier::opaque]
    pub open spec fn spec_to_byte(self) -> u8 {
        match self {
            Self::Internal => 0,
            Self::Midi => 1,
        }
    }

    pub fn from_byte(b: u8) -> (r: Result<Self, CodecError>)
        ensures
            r == Self::spec_from_byte(b),
    {
        match b {
            0 => Ok(Self::Internal),
            1 => Ok(Self::Midi),
            _ => Err(
                CodecError::InvalidValue {
                    field: "midi.realtime_source",
                    value: b,
                    valid: "0=internal, 1=midi",
                },
            ),
        }
    }

    pub fn to_byte(self) -> (b: u8)
        ensures
            b == self.spec_to_byte(),
    {
        reveal(RealtimeSource::spec_to_byte);
        match self {
            Self::Internal => 0,
            Self::Midi => 1,
        }
    }
}

/// What range-checking a byte against `min..=max` gives.
pub open spec fn spec_validate_range(value: u8, min: u8, max: u8, field: &'static str) -> Result<
    u8,
    CodecError,
> {
    if min <= value <= max {
        Ok(value)
    } else {
        Err(CodecError::OutOfRange { field, value: value as u16, valid: "see field doc" })
    }
}

pub fn validate_range(value: u8, min: u8, max: u8, field: &'static str) -> (r: Result<
    u8,
    CodecError,
>)
    ensures
        r == spec_validate_range(value, min, max, field),
{
    if min <= value && value <= max {
        Ok(value)
    } else {
        Err(CodecError::OutOfRange { field, value: value as u16, valid: "see field doc" })
    }
}

// === byte codec ===

/// The System area that 18 valid bytes describe (each field read from its offset).
pub open spec fn spec_system_value(s: Seq<u8>) -> SystemArea {
    SystemArea {
        input_source: InputSource::spec_from_byte(s[0x00])->Ok_0,
        ctl1_function: Ctl1Function::spec_from_byte(s[0x01])->Ok_0,
        ctl2_function: Ctl2Function::spec_from_byte(s[0x02])->Ok_0,
        direct: DirectSettings {
            on: codec::spec_byte_to_bool(s[0x03], "direct.on")->Ok_0,
            mode: DirectMode::spec_from_byte(s[0x04])->Ok_0,
        },
        carryover: codec::spec_byte_to_bool(s[0x05], "carryover")->Ok_0,
        time_mode: TimeMode::spec_from_byte(s[0x06])->Ok_0,
        reverb_type: ReverbType::spec_from_byte(s[0x07])->Ok_0,
        memory_extent: s[0x08],
        midi: MidiSettings {
            rx_channel: MidiChannel::spec_from_byte(s[0x09])->Ok_0,
            tx_channel: TxChannel::spec_from_byte(s[0x0A])->Ok_0,
            pc_in: codec::spec_byte_to_bool(s[0x0B], "midi.pc_in")->Ok_0,
            pc_out: codec::spec_byte_to_bool(s[0x0C], "midi.pc_out")->Ok_0,
            cc_in: codec::spec_byte_to_bool(s[0x0D], "midi.cc_in")->Ok_0,
            cc_out: codec::spec_byte_to_bool(s[0x0E], "midi.cc_out")->Ok_0,
            sync_source: SyncSource::spec_from_byte(s[0x0F])->Ok_0,
            realtime_source: RealtimeSource::spec_from_byte(s[0x10])->Ok_0,
            thru: codec::spec_byte_to_bool(s[0x11], "midi.thru")->Ok_0,
        },
    }
}

/// What decoding a byte sequence as a System area gives: a length error, else the error
/// of the first field (in offset order) whose byte is invalid, else the decoded value.
#[verifier::opaque]
pub open spec fn spec_system_from_bytes(s: Seq<u8>) -> Result<SystemArea, CodecError> {
    if s.len() != SYSTEM_AREA_LEN {
        Err(CodecError::WrongLength { expected: SYSTEM_AREA_LEN, actual: s.len() as usize })
    } else if let Err(e) = InputSource::spec_from_byte(s[0x00]) {
        Err(e)
    } else if let Err(e) = Ctl1Function::spec_from_byte(s[0x01]) {
        Err(e)
    } else if let Err(e) = Ctl2Function::spec_from_byte(s[0x02]) {
        Err(e)
    } else if let Err(e) = codec::spec_byte_to_bool(s[0x03], "direct.on") {
        Err(e)
    } else if let Err(e) = DirectMode::spec_from_byte(s[0x04]) {
        Err(e)
    } else if let Err(e) = codec::spec_byte_to_bool(s[0x05], "carryover") {
        Err(e)
    } else if let Err(e) = TimeMode::spec_from_byte(s[0x06]) {
        Err(e)
    } else if let Err(e) = ReverbType::spec_from_byte(s[0x07]) {
        Err(e)
    } else if let Err(e) = spec_validate_range(s[0x08], 1, 4, "memory_extent") {
        Err(e)
    } else if let Err(e) = MidiChannel::spec_from_byte(s[0x09]) {
        Err(e)
    } else if let Err(e) = TxChannel::spec_from_byte(s[0x0A]) {
        Err(e)
    } else if let Err(e) = codec::spec_byte_to_bool(s[0x0B], "midi.pc_in") {
        Err(e)
    } else if let Err(e) = codec::spec_byte_to_bool(s[0x0C], "midi.pc_out") {
        Err(e)
    } else if let Err(e) = codec::spec_byte_to_bool(s[0x0D], "midi.cc_in") {
        Err(e)
    } else if let Err(e) = codec::spec_byte_to_bool(s[0x0E], "midi.cc_out") {
        Err(e)
    } else if let Err(e) = SyncSource::spec_from_byte(s[0x0F]) {
        Err(e)
    } else if let Err(e) = RealtimeSource::spec_from_byte(s[0x10]) {
        Err(e)
    } else if let Err(e) = codec::spec_byte_to_bool(s[0x11], "midi.thru") {
        Err(e)
    } else {
        Ok(spec_system_value(s))
    }
}

/// The byte at offset `i` (0..=17) of a System area's encoding.
pub open spec fn spec_system_byte(v: SystemArea, i: int) -> u8 {
    if i == 0 {
        v.input_source.spec_to_byte()
    } else if i == 1 {
        v.ctl1_function.spec_to_byte()
    } else if i == 2 {
        v.ctl2_function.spec_to_byte()
    } else if i == 3 {
        codec::spec_bool_to_byte(v.direct.on)
    } else if i == 4 {
        v.direct.mode.spec_to_byte()
    } else if i == 5 {
        codec::spec_bool_to_byte(v.carryover)
    } else if i == 6 {
        v.time_mode.spec_to_byte()
    } else if i == 7 {
        v.reverb_type.spec_to_byte()
    } else if i == 8 {
        v.memory_extent
    } else if i == 9 {
        v.midi.rx_channel.spec_to_byte()
    } else if i == 10 {
        v.midi.tx_channel.spec_to_byte()
    } else if i == 11 {
        codec::spec_bool_to_byte(v.midi.pc_in)
    } else if i == 12 {
        codec::spec_bool_to_byte(v.midi.pc_out)
    } else if i == 13 {
        codec::spec_bool_to_byte(v.midi.cc_in)
    } else if i == 14 {
        codec::spec_bool_to_byte(v.midi.cc_out)
    } else if i == 15 {
        v.midi.sync_source.spec_to_byte()
    } else if i == 16 {
        v.midi.realtime_source.spec_to_byte()
    } else {
        codec::spec_bool_to_byte(v.midi.thru)
    }
}

/// The 18 bytes a System area is written as.
pub open spec fn spec_system_bytes(v: SystemArea) -> Seq<u8> {
    Seq::new(SYSTEM_AREA_LEN as nat, |i: int| spec_system_byte(v, i))
}

/// The error for a channel number outside `1..=16`.
pub open spec fn channel_error(field: &'static str, n: u8) -> CodecError {
    CodecError::OutOfRange { field, value: n as u16, valid: "1..=16" }
}

/// What encoding a System area gives: an error for a Memory Extent outside `1..=4`, else
/// for an Rx channel number outside `1..=16`, else for a Tx channel number outside
/// `1..=16`, else its 18 bytes.
pub open spec fn spec_system_to_bytes(v: SystemArea) -> Result<Seq<u8>, CodecError> {
    if !(1 <= v.memory_extent <= 4) {
        Err(
            CodecError::OutOfRange {
                field: "memory_extent",
                value: v.memory_extent as u16,
                valid: "1..=4",
            },
        )
    } else if !v.midi.rx_channel.wf() {
        Err(channel_error("midi.rx_channel", v.midi.rx_channel->Channel_0))
    } else if !v.midi.tx_channel.wf() {
        Err(channel_error("midi.tx_channel", v.midi.tx_channel->Channel_0))
    } else {
        Ok(spec_system_bytes(v))
    }
}

impl SystemArea {
    /// A System area that encodes and decodes back to itself.
    pub open spec fn wf(&self) -> bool {
        &&& 1 <= self.memory_extent <= 4
        &&& self.midi.rx_channel.wf()
        &&& self.midi.tx_channel.wf()
    }

    pub fn from_bytes(bytes: &[u8]) -> (r: Result<Self, CodecError>)
        ensures
            r == spec_system_from_bytes(bytes@),
    {
        reveal(spec_system_from_bytes);
        if bytes.len() != SYSTEM_AREA_LEN {
            return Err(CodecError::WrongLength { expected: SYSTEM_AREA_LEN, actual: bytes.len() });
        }
        let input_source = InputSource::from_byte(bytes[0x00])?;
        let ctl1_function = Ctl1Function::from_byte(bytes[0x01])?;
        let ctl2_function = Ctl2Function::from_byte(bytes[0x02])?;
        let direct_on = byte_to_bool(bytes[0x03], "direct.on")?;
        let direct_mode = DirectMode::from_byte(bytes[0x04])?;
        let carryover = byte_to_bool(bytes[0x05], "carryover")?;
        let time_mode = TimeMode::from_byte(bytes[0x06])?;
        let reverb_type = ReverbType::from_byte(bytes[0x07])?;
        let memory_extent = validate_range(bytes[0x08], 1, 4, "memory_extent")?;
        let rx_channel = MidiChannel::from_byte(bytes[0x09])?;
        let tx_channel = TxChannel::from_byte(bytes[0x0A])?;
        let pc_in = byte_to_bool(bytes[0x0B], "midi.pc_in")?;
        let pc_out = byte_to_bool(bytes[0x0C], "midi.pc_out")?;
        let cc_in = byte_to_bool(bytes[0x0D], "midi.cc_in")?;
        let cc_out = byte_to_bool(bytes[0x0E], "midi.cc_out")?;
        let sync_source = SyncSource::from_byte(bytes[0x0F])?;
        let realtime_source = RealtimeSource::from_byte(bytes[0x10])?;
        let thru = byte_to_bool(bytes[0x11], "midi.thru")?;
        Ok(
            Self {
                input_source,
                ctl1_function,
                ctl2_function,
                direct: DirectSettings { on: direct_on, mode: direct_mode },
                carryover,
                time_mode,
                reverb_type,
                memory_extent,
                midi: MidiSettings {
                    rx_channel,
                    tx_channel,
                    pc_in,
                    pc_out,
                    cc_in,
                    cc_out,
                    sync_source,
                    realtime_source,
                    thru,
                },
            },
        )
    }

    pub fn to_bytes(&self) -> (r: Result<[u8; SYSTEM_AREA_LEN], CodecError>)
        ensures
            match r {
                Ok(b) => spec_system_to_bytes(*self) == Ok::<Seq<u8>, CodecError>(b@),
                Err(e) => spec_system_to_bytes(*self) == Err::<Seq<u8>, CodecError>(e),
            },
            r is Ok <==> self.wf(),
    {
        if !(1 <= self.memory_extent && self.memory_extent <= 4) {
            return Err(
                CodecError::OutOfRange {
                    field: "memory_extent",
                    value: self.memory_extent as u16,
                    valid: "1..=4",
                },
            );
        }
        if let MidiChannel::Channel(n) = self.midi.rx_channel {
            if n < 1 || n > 16 {
                return Err(
                    CodecError::OutOfRange { field: "midi.rx_channel", value: n as u16, valid: "1..=16" },
                );
            }
        }
        if let TxChannel::Channel(n) = self.midi.tx_channel {
            if n < 1 || n > 16 {
                return Err(
                    CodecError::OutOfRange { field: "midi.tx_channel", value: n as u16, valid: "1..=16" },
                );
            }
        }
        Ok(self.field_bytes())
    }

    /// The 18 field bytes, one per setting, in wire order.
    #[verifier::spinoff_prover]
    #[verifier::rlimit(60)]
    fn field_bytes(&self) -> (b: [u8; SYSTEM_AREA_LEN])
        ensures
            b@ == spec_system_bytes(*self),
    {
        let b0: u8 = self.input_source.to_byte();
        let b1: u8 = self.ctl1_function.to_byte();
        let b2: u8 = self.ctl2_function.to_byte();
        let b3: u8 = bool_to_byte(self.direct.on);
        let b4: u8 = self.direct.mode.to_byte();
        let b5: u8 = bool_to_byte(self.carryover);
        let b6: u8 = self.time_mode.to_byte();
        let b7: u8 = self.reverb_type.to_byte();
        let b8: u8 = self.memory_extent;
        let b9: u8 = self.midi.rx_channel.to_byte();
        let b10: u8 = self.midi.tx_channel.to_byte();
        let b11: u8 = bool_to_byte(self.midi.pc_in);
        let b12: u8 = bool_to_byte(self.midi.pc_out);
        let b13: u8 = bool_to_byte(self.midi.cc_in);
        let b14: u8 = bool_to_byte(self.midi.cc_out);
        let b15: u8 = self.midi.sync_source.to_byte();
        let b16: u8 = self.midi.realtime_source.to_byte();
        let b17: u8 = bool_to_byte(self.midi.thru);
        let b: [u8; SYSTEM_AREA_LEN] = [
            b0, b1, b2, b3, b4, b5, b6, b7, b8, b9, b10, b11, b12, b13, b14, b15, b16, b17,
        ];
        assert(b@ =~= seq![b0, b1, b2, b3, b4, b5, b6, b7, b8, b9, b10, b11, b12, b13, b14, b15, b16, b17]);
        proof {
            lemma_system_bytes_of(
                *self,
                b0, b1, b2, b3, b4, b5, b6, b7, b8, b9, b10, b11, b12, b13, b14, b15, b16, b17,
                b@,
            );
        }
        b
    }
}

/// Every field byte of `s` decodes.
pub open spec fn system_fields_decode(s: Seq<u8>) -> bool {
    &&& InputSource::spec_from_byte(s[0x00]) is Ok
    &&& Ctl1Function::spec_from_byte(s[0x01]) is Ok
    &&& Ctl2Function::spec_from_byte(s[0x02]) is Ok
    &&& codec::spec_byte_to_bool(s[0x03], "direct.on") is Ok
    &&& DirectMode::spec_from_byte(s[0x04]) is Ok
    &&& codec::spec_byte_to_bool(s[0x05], "carryover") is Ok
    &&& TimeMode::spec_from_byte(s[0x06]) is Ok
    &&& ReverbType::spec_from_byte(s[0x07]) is Ok
    &&& spec_validate_range(s[0x08], 1, 4, "memory_extent") is Ok
    &&& MidiChannel::spec_from_byte(s[0x09]) is Ok
    &&& TxChannel::spec_from_byte(s[0x0A]) is Ok
    &&& codec::spec_byte_to_bool(s[0x0B], "midi.pc_in") is Ok
    &&& codec::spec_byte_to_bool(s[0x0C], "midi.pc_out") is Ok
    &&& codec::spec_byte_to_bool(s[0x0D], "midi.cc_in") is Ok
    &&& codec::spec_byte_to_bool(s[0x0E], "midi.cc_out") is Ok
    &&& SyncSource::spec_from_byte(s[0x0F]) is Ok
    &&& RealtimeSource::spec_from_byte(s[0x10]) is Ok
    &&& codec::spec_byte_to_bool(s[0x11], "midi.thru") is Ok
}

/// Decoding succeeds exactly when the length is right and every field byte decodes, and
/// then gives the field-by-field value.
proof fn lemma_system_decode_cases(s: Seq<u8>)
    ensures
        (s.len() == SYSTEM_AREA_LEN && system_fields_decode(s)) <==> spec_system_from_bytes(s) is Ok,
        spec_system_from_bytes(s) is Ok ==> spec_system_from_bytes(s) == Ok::<SystemArea, CodecError>(spec_system_value(s)),
{
    reveal(spec_system_from_bytes);
}

/// Bytes that decode as a System area re-encode to exactly those bytes, and what they
/// decode to is well-formed.
pub proof fn lemma_system_bytes_round_trip(s: Seq<u8>)
    requires
        spec_system_from_bytes(s) is Ok,
    ensures
        spec_system_from_bytes(s)->Ok_0.wf(),
        spec_system_bytes(spec_system_from_bytes(s)->Ok_0) == s,
{
    lemma_system_decode_cases(s);
    let v = spec_system_value(s);
    InputSource::lemma_byte_round_trip(s[0]);
    Ctl1Function::lemma_byte_round_trip(s[1]);
    Ctl2Function::lemma_byte_round_trip(s[2]);
    codec::lemma_bool_byte_round_trip(s[3], true, "direct.on");
    DirectMode::lemma_byte_round_trip(s[4]);
    codec::lemma_bool_byte_round_trip(s[5], true, "carryover");
    TimeMode::lemma_byte_round_trip(s[6]);
    ReverbType::lemma_byte_round_trip(s[7]);
    MidiChannel::lemma_byte_round_trip(s[9]);
    TxChannel::lemma_byte_round_trip(s[10]);
    codec::lemma_bool_byte_round_trip(s[11], true, "midi.pc_in");
    codec::lemma_bool_byte_round_trip(s[12], true, "midi.pc_out");
    codec::lemma_bool_byte_round_trip(s[13], true, "midi.cc_in");
    codec::lemma_bool_byte_round_trip(s[14], true, "midi.cc_out");
    SyncSource::lemma_byte_round_trip(s[15]);
    RealtimeSource::lemma_byte_round_trip(s[16]);
    codec::lemma_bool_byte_round_trip(s[17], true, "midi.thru");
    assert(spec_system_bytes(v) =~= s);
}

/// The encoding of a System area, byte by byte.
/// The byte literal a System area's fields are written as is its encoding.
proof fn lemma_system_bytes_of(v: SystemArea, b0: u8, b1: u8, b2: u8, b3: u8, b4: u8, b5: u8, b6: u8, b7: u8, b8: u8, b9: u8, b10: u8, b11: u8, b12: u8, b13: u8, b14: u8, b15: u8, b16: u8, b17: u8, l: Seq<u8>)
    requires
        b0 == v.input_source.spec_to_byte(),
        b1 == v.ctl1_function.spec_to_byte(),
        b2 == v.ctl2_function.spec_to_byte(),
        b3 == codec::spec_bool_to_byte(v.direct.on),
        b4 == v.direct.mode.spec_to_byte(),
        b5 == codec::spec_bool_to_byte(v.carryover),
        b6 == v.time_mode.spec_to_byte(),
        b7 == v.reverb_type.spec_to_byte(),
        b8 == v.memory_extent,
        b9 == v.midi.rx_channel.spec_to_byte(),
        b10 == v.midi.tx_channel.spec_to_byte(),
        b11 == codec::spec_bool_to_byte(v.midi.pc_in),
        b12 == codec::spec_bool_to_byte(v.midi.pc_out),
        b13 == codec::spec_bool_to_byte(v.midi.cc_in),
        b14 == codec::spec_bool_to_byte(v.midi.cc_out),
        b15 == v.midi.sync_source.spec_to_byte(),
        b16 == v.midi.realtime_source.spec_to_byte(),
        b17 == codec::spec_bool_to_byte(v.midi.thru),
        l == seq![b0, b1, b2, b3, b4, b5, b6, b7, b8, b9, b10, b11, b12, b13, b14, b15, b16, b17],
    ensures
        l == spec_system_bytes(v),
{
    lemma_seq18_index(b0, b1, b2, b3, b4, b5, b6, b7, b8, b9, b10, b11, b12, b13, b14, b15, b16, b17);
    assert forall|i: int| 0 <= i < SYSTEM_AREA_LEN implies l[i] == spec_system_byte(v, i) by {
        if i == 0 {
            } else if i == 1 {
            } else if i == 2 {
            } else if i == 3 {
            } else if i == 4 {
            } else if i == 5 {
            } else if i == 6 {
            } else if i == 7 {
            } else if i == 8 {
            } else if i == 9 {
            } else if i == 10 {
            } else if i == 11 {
            } else if i == 12 {
            } else if i == 13 {
            } else if i == 14 {
            } else if i == 15 {
            } else if i == 16 {
        } else {
        }
    }
    assert(l =~= spec_system_bytes(v));
}

/// Indexing an 18-byte sequence literal.
proof fn lemma_seq18_index(a0: u8, a1: u8, a2: u8, a3: u8, a4: u8, a5: u8, a6: u8, a7: u8, a8: u8, a9: u8, a10: u8, a11: u8, a12: u8, a13: u8, a14: u8, a15: u8, a16: u8, a17: u8)
    ensures
        seq![a0, a1, a2, a3, a4, a5, a6, a7, a8, a9, a10, a11, a12, a13, a14, a15, a16, a17][0] == a0,
        seq![a0, a1, a2, a3, a4, a5, a6, a7, a8, a9, a10, a11, a12, a13, a14, a15, a16, a17][1] == a1,
        seq![a0, a1, a2, a3, a4, a5, a6, a7, a8, a9, a10, a11, a12, a13, a14, a15, a16, a17][2] == a2,
        seq![a0, a1, a2, a3, a4, a5, a6, a7, a8, a9, a10, a11, a12, a13, a14, a15, a16, a17][3] == a3,
        seq![a0, a1, a2, a3, a4, a5, a6, a7, a8, a9, a10, a11, a12, a13, a14, a15, a16, a17][4] == a4,
        seq![a0, a1, a2, a3, a4, a5, a6, a7, a8, a9, a10, a11, a12, a13, a14, a15, a16, a17][5] == a5,
        seq![a0, a1, a2, a3, a4, a5, a6, a7, a8, a9, a10, a11, a12, a13, a14, a15, a16, a17][6] == a6,
        seq![a0, a1, a2, a3, a4, a5, a6, a7, a8, a9, a10, a11, a12, a13, a14, a15, a16, a17][7] == a7,
        seq![a0, a1, a2, a3, a4, a5, a6, a7, a8, a9, a10, a11, a12, a13, a14, a15, a16, a17][8] == a8,
        seq![a0, a1, a2, a3, a4, a5, a6, a7, a8, a9, a10, a11, a12, a13, a14, a15, a16, a17][9] == a9,
        seq![a0, a1, a2, a3, a4, a5, a6, a7, a8, a9, a10, a11, a12, a13, a14, a15, a16, a17][10] == a10,
        seq![a0, a1, a2, a3, a4, a5, a6, a7, a8, a9, a10, a11, a12, a13, a14, a15, a16, a17][11] == a11,
        seq![a0, a1, a2, a3, a4, a5, a6, a7, a8, a9, a10, a11, a12, a13, a14, a15, a16, a17][12] == a12,
        seq![a0, a1, a2, a3, a4, a5, a6, a7, a8, a9, a10, a11, a12, a13, a14, a15, a16, a17][13] == a13,
        seq![a0, a1, a2, a3, a4, a5, a6, a7, a8, a9, a10, a11, a12, a13, a14, a15, a16, a17][14] == a14,
        seq![a0, a1, a2, a3, a4, a5, a6, a7, a8, a9, a10, a11, a12, a13, a14, a15, a16, a17][15] == a15,
        seq![a0, a1, a2, a3, a4, a5, a6, a7, a8, a9, a10, a11, a12, a13, a14, a15, a16, a17][16] == a16,
        seq![a0, a1, a2, a3, a4, a5, a6, a7, a8, a9, a10, a11, a12, a13, a14, a15, a16, a17][17] == a17,
{
}

/// The System area's wire layout: 18 bytes, one per setting, at the documented offsets
/// (`00` Input Source, `01`/`02` CTL1/CTL2 Function, `03` Direct On, `04` Direct Mode,
/// `05` Carryover, `06` Time Mode, `07` Reverb Type, `08` Memory Extent, `09`/`0A` MIDI
/// Rx/Tx channel, `0B`..`0E` PC In/Out and CC In/Out, `0F` Sync Source, `10` Realtime
/// Source, `11` MIDI Thru).
pub proof fn lemma_system_bytes_index(v: SystemArea)
    ensures
        spec_system_bytes(v).len() == 18,
        spec_system_bytes(v)[0] == v.input_source.spec_to_byte(),
        spec_system_bytes(v)[1] == v.ctl1_function.spec_to_byte(),
        spec_system_bytes(v)[2] == v.ctl2_function.spec_to_byte(),
        spec_system_bytes(v)[3] == codec::spec_bool_to_byte(v.direct.on),
        spec_system_bytes(v)[4] == v.direct.mode.spec_to_byte(),
        spec_system_bytes(v)[5] == codec::spec_bool_to_byte(v.carryover),
        spec_system_bytes(v)[6] == v.time_mode.spec_to_byte(),
        spec_system_bytes(v)[7] == v.reverb_type.spec_to_byte(),
        spec_system_bytes(v)[8] == v.memory_extent,
        spec_system_bytes(v)[9] == v.midi.rx_channel.spec_to_byte(),
        spec_system_bytes(v)[10] == v.midi.tx_channel.spec_to_byte(),
        spec_system_bytes(v)[11] == codec::spec_bool_to_byte(v.midi.pc_in),
        spec_system_bytes(v)[12] == codec::spec_bool_to_byte(v.midi.pc_out),
        spec_system_bytes(v)[13] == codec::spec_bool_to_byte(v.midi.cc_in),
        spec_system_bytes(v)[14] == codec::spec_bool_to_byte(v.midi.cc_out),
        spec_system_bytes(v)[15] == v.midi.sync_source.spec_to_byte(),
        spec_system_bytes(v)[16] == v.midi.realtime_source.spec_to_byte(),
        spec_system_bytes(v)[17] == codec::spec_bool_to_byte(v.midi.thru),
{
}

/// Every byte of a well-formed System area's encoding decodes back to its field.
proof fn lemma_system_value_fields(v: SystemArea)
    requires
        v.wf(),
    ensures
        system_fields_decode(spec_system_bytes(v)),
        spec_system_value(spec_system_bytes(v)) == v,
{
    let s = spec_system_bytes(v);
    lemma_system_bytes_index(v);
    assert(InputSource::spec_from_byte(s[0]) == Ok::<_, CodecError>(v.input_source)) by {
        v.input_source.lemma_value_round_trip();
    }
    assert(Ctl1Function::spec_from_byte(s[1]) == Ok::<_, CodecError>(v.ctl1_function)) by {
        v.ctl1_function.lemma_value_round_trip();
    }
    assert(Ctl2Function::spec_from_byte(s[2]) == Ok::<_, CodecError>(v.ctl2_function)) by {
        v.ctl2_function.lemma_value_round_trip();
    }
    assert(codec::spec_byte_to_bool(s[3], "direct.on") == Ok::<_, CodecError>(v.direct.on)) by {
        codec::lemma_bool_byte_round_trip(0, v.direct.on, "direct.on");
    }
    assert(DirectMode::spec_from_byte(s[4]) == Ok::<_, CodecError>(v.direct.mode)) by {
        v.direct.mode.lemma_value_round_trip();
    }
    assert(codec::spec_byte_to_bool(s[5], "carryover") == Ok::<_, CodecError>(v.carryover)) by {
        codec::lemma_bool_byte_round_trip(0, v.carryover, "carryover");
    }
    assert(TimeMode::spec_from_byte(s[6]) == Ok::<_, CodecError>(v.time_mode)) by {
        v.time_mode.lemma_value_round_trip();
    }
    assert(ReverbType::spec_from_byte(s[7]) == Ok::<_, CodecError>(v.reverb_type)) by {
        v.reverb_type.lemma_value_round_trip();
    }
    assert(MidiChannel::spec_from_byte(s[9]) == Ok::<_, CodecError>(v.midi.rx_channel)) by {
        v.midi.rx_channel.lemma_value_round_trip();
    }
    assert(TxChannel::spec_from_byte(s[10]) == Ok::<_, CodecError>(v.midi.tx_channel)) by {
        v.midi.tx_channel.lemma_value_round_trip();
    }
    assert(codec::spec_byte_to_bool(s[11], "midi.pc_in") == Ok::<_, CodecError>(v.midi.pc_in)) by {
        codec::lemma_bool_byte_round_trip(0, v.midi.pc_in, "midi.pc_in");
    }
    assert(codec::spec_byte_to_bool(s[12], "midi.pc_out") == Ok::<_, CodecError>(v.midi.pc_out)) by {
        codec::lemma_bool_byte_round_trip(0, v.midi.pc_out, "midi.pc_out");
    }
    assert(codec::spec_byte_to_bool(s[13], "midi.cc_in") == Ok::<_, CodecError>(v.midi.cc_in)) by {
        codec::lemma_bool_byte_round_trip(0, v.midi.cc_in, "midi.cc_in");
    }
    assert(codec::spec_byte_to_bool(s[14], "midi.cc_out") == Ok::<_, CodecError>(v.midi.cc_out)) by {
        codec::lemma_bool_byte_round_trip(0, v.midi.cc_out, "midi.cc_out");
    }
    assert(SyncSource::spec_from_byte(s[15]) == Ok::<_, CodecError>(v.midi.sync_source)) by {
        v.midi.sync_source.lemma_value_round_trip();
    }
    assert(RealtimeSource::spec_from_byte(s[16]) == Ok::<_, CodecError>(v.midi.realtime_source)) by {
        v.midi.realtime_source.lemma_value_round_trip();
    }
    assert(codec::spec_byte_to_bool(s[17], "midi.thru") == Ok::<_, CodecError>(v.midi.thru)) by {
        codec::lemma_bool_byte_round_trip(0, v.midi.thru, "midi.thru");
    }
}

/// A well-formed System area decodes back from its own encoding.
pub proof fn lemma_system_value_round_trip(v: SystemArea)
    requires
        v.wf(),
    ensures
        spec_system_from_bytes(spec_system_bytes(v)) == Ok::<SystemArea, CodecError>(v),
{
    lemma_system_value_fields(v);
    lemma_system_decode_cases(spec_system_bytes(v));
}

/// A well-formed System area is written with 7-bit clean bytes only.
pub proof fn lemma_system_bytes_7bit(v: SystemArea)
    requires
        v.wf(),
    ensures
        sysex::is_7bit(spec_system_bytes(v)),
{
    v.input_source.lemma_value_round_trip();
    v.ctl1_function.lemma_value_round_trip();
    v.ctl2_function.lemma_value_round_trip();
    v.direct.mode.lemma_value_round_trip();
    v.time_mode.lemma_value_round_trip();
    v.reverb_type.lemma_value_round_trip();
    v.midi.rx_channel.lemma_value_round_trip();
    v.midi.tx_channel.lemma_value_round_trip();
    v.midi.sync_source.lemma_value_round_trip();
    v.midi.realtime_source.lemma_value_round_trip();
    codec::lemma_bool_byte_round_trip(0, v.direct.on, "direct.on");
    codec::lemma_bool_byte_round_trip(0, v.carryover, "carryover");
    codec::lemma_bool_byte_round_trip(0, v.midi.pc_in, "midi.pc_in");
    codec::lemma_bool_byte_round_trip(0, v.midi.pc_out, "midi.pc_out");
    codec::lemma_bool_byte_round_trip(0, v.midi.cc_in, "midi.cc_in");
    codec::lemma_bool_byte_round_trip(0, v.midi.cc_out, "midi.cc_out");
    codec::lemma_bool_byte_round_trip(0, v.midi.thru, "midi.thru");
    assert forall|i: int| 0 <= i < spec_system_bytes(v).len() implies #[trigger] spec_system_bytes(
        v,
    )[i] < 0x80 by {
        assert(spec_system_bytes(v)[i] == spec_system_byte(v, i));
    }
}

// === wire tables ===

/// Input Source: Guitar is written as 0 and Line as 1; exactly those bytes decode, each to
/// the source written as it.
pub proof fn lemma_input_source_wire_bytes(b: u8)
    ensures
        InputSource::Guitar.spec_to_byte() == 0,
        InputSource::Line.spec_to_byte() == 1,
        InputSource::spec_from_byte(b) is Ok <==> b <= 1,
        InputSource::spec_from_byte(b) matches Ok(x) ==> x.spec_to_byte() == b,
{
    reveal(InputSource::spec_to_byte);
}

/// CTL1 Function: Memory Up, Memory Down, Effect On/Off, Tap and Warp are written as
/// 0..=4 in that order; exactly those bytes decode, each to the function written as it.
pub proof fn lemma_ctl1_function_wire_bytes(b: u8)
    ensures
        Ctl1Function::MemoryUp.spec_to_byte() == 0,
        Ctl1Function::MemoryDown.spec_to_byte() == 1,
        Ctl1Function::EffectOnOff.spec_to_byte() == 2,
        Ctl1Function::Tap.spec_to_byte() == 3,
        Ctl1Function::Warp.spec_to_byte() == 4,
        Ctl1Function::spec_from_byte(b) is Ok <==> b <= 4,
        Ctl1Function::spec_from_byte(b) matches Ok(x) ==> x.spec_to_byte() == b,
{
    reveal(Ctl1Function::spec_to_byte);
}

/// CTL2 Function: Memory Up, Memory Down, Effect On/Off, Tap and Twist are written as
/// 0..=4 in that order; exactly those bytes decode, each to the function written as it.
pub proof fn lemma_ctl2_function_wire_bytes(b: u8)
    ensures
        Ctl2Function::MemoryUp.spec_to_byte() == 0,
        Ctl2Function::MemoryDown.spec_to_byte() == 1,
        Ctl2Function::EffectOnOff.spec_to_byte() == 2,
        Ctl2Function::Tap.spec_to_byte() == 3,
        Ctl2Function::Twist.spec_to_byte() == 4,
        Ctl2Function::spec_from_byte(b) is Ok <==> b <= 4,
        Ctl2Function::spec_from_byte(b) matches Ok(x) ==> x.spec_to_byte() == b,
{
    reveal(Ctl2Function::spec_to_byte);
}

/// Direct Mode: Analog is written as 0 and RE-201 Simulate as 1; exactly those bytes
/// decode, each to the mode written as it.
pub proof fn lemma_direct_mode_wire_bytes(b: u8)
    ensures
        DirectMode::Analog.spec_to_byte() == 0,
        DirectMode::Re201Simulate.spec_to_byte() == 1,
        DirectMode::spec_from_byte(b) is Ok <==> b <= 1,
        DirectMode::spec_from_byte(b) matches Ok(x) ==> x.spec_to_byte() == b,
{
    reveal(DirectMode::spec_to_byte);
}

/// Time Mode: Normal is written as 0 and Long as 1; exactly those bytes decode, each to the
/// mode written as it.
pub proof fn lemma_time_mode_wire_bytes(b: u8)
    ensures
        TimeMode::Normal.spec_to_byte() == 0,
        TimeMode::Long.spec_to_byte() == 1,
        TimeMode::spec_from_byte(b) is Ok <==> b <= 1,
        TimeMode::spec_from_byte(b) matches Ok(x) ==> x.spec_to_byte() == b,
{
    reveal(TimeMode::spec_to_byte);
}

/// Reverb Type: Spring, Hall, Plate, Room and Ambience are written as 0..=4 in that order;
/// exactly those bytes decode, each to the type written as it.
pub proof fn lemma_reverb_type_wire_bytes(b: u8)
    ensures
        ReverbType::Spring.spec_to_byte() == 0,
        ReverbType::Hall.spec_to_byte() == 1,
        ReverbType::Plate.spec_to_byte() == 2,
        ReverbType::Room.spec_to_byte() == 3,
        ReverbType::Ambience.spec_to_byte() == 4,
        ReverbType::spec_from_byte(b) is Ok <==> b <= 4,
        ReverbType::spec_from_byte(b) matches Ok(x) ==> x.spec_to_byte() == b,
{
    reveal(ReverbType::spec_to_byte);
}

/// MIDI Rx channel: Off is written as 0 and channel `n` as `n`; exactly the bytes 0..=16
/// decode, 0 as Off and `n` as channel `n`.
pub proof fn lemma_rx_channel_wire_bytes(n: u8, b: u8)
    ensures
        MidiChannel::Symbolic(MidiChannelSymbol::Off).spec_to_byte() == 0,
        MidiChannel::Channel(n).spec_to_byte() == n,
        MidiChannel::spec_from_byte(b) is Ok <==> b <= 16,
        b == 0 ==> MidiChannel::spec_from_byte(b) == Ok::<MidiChannel, CodecError>(
            MidiChannel::Symbolic(MidiChannelSymbol::Off),
        ),
        1 <= b <= 16 ==> MidiChannel::spec_from_byte(b) == Ok::<MidiChannel, CodecError>(
            MidiChannel::Channel(b),
        ),
{
    reveal(MidiChannel::spec_to_byte);
}

/// MIDI Tx channel: Off is written as 0, channel `n` as `n` and Rx (follow the Rx channel)
/// as 17; exactly the bytes 0..=17 decode, 0 as Off, `n` as channel `n`, 17 as Rx.
pub proof fn lemma_tx_channel_wire_bytes(n: u8, b: u8)
    ensures
        TxChannel::Symbolic(TxChannelSymbol::Off).spec_to_byte() == 0,
        TxChannel::Channel(n).spec_to_byte() == n,
        TxChannel::Symbolic(TxChannelSymbol::Rx).spec_to_byte() == 17,
        TxChannel::spec_from_byte(b) is Ok <==> b <= 17,
        b == 0 ==> TxChannel::spec_from_byte(b) == Ok::<TxChannel, CodecError>(
            TxChannel::Symbolic(TxChannelSymbol::Off),
        ),
        1 <= b <= 16 ==> TxChannel::spec_from_byte(b) == Ok::<TxChannel, CodecError>(
            TxChannel::Channel(b),
        ),
        b == 17 ==> TxChannel::spec_from_byte(b) == Ok::<TxChannel, CodecError>(
            TxChannel::Symbolic(TxChannelSymbol::Rx),
        ),
{
    reveal(TxChannel::spec_to_byte);
}

/// MIDI Sync Source: Internal is written as 0 and Auto as 1; exactly those bytes decode,
/// each to the source written as it.
pub proof fn lemma_sync_source_wire_bytes(b: u8)
    ensures
        SyncSource::Internal.spec_to_byte() == 0,
        SyncSource::Auto.spec_to_byte() == 1,
        SyncSource::spec_from_byte(b) is Ok <==> b <= 1,
        SyncSource::spec_from_byte(b) matches Ok(x) ==> x.spec_to_byte() == b,
{
    reveal(SyncSource::spec_to_byte);
}

/// MIDI Realtime Source: Internal is written as 0 and MIDI as 1; exactly those bytes
/// decode, each to the source written as it.
pub proof fn lemma_realtime_source_wire_bytes(b: u8)
    ensures
        RealtimeSource::Internal.spec_to_byte() == 0,
        RealtimeSource::Midi.spec_to_byte() == 1,
        RealtimeSource::spec_from_byte(b) is Ok <==> b <= 1,
        RealtimeSource::spec_from_byte(b) matches Ok(x) ==> x.spec_to_byte() == b,
{
    reveal(RealtimeSource::spec_to_byte);
}

} // verus!
