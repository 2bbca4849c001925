//! Memory slot model — one preset's worth of parameters, 33 bytes.
use vstd::prelude::*;

use crate::address::MEMORY_BLOCK_LEN;
use crate::codec::{self, bool_to_byte, byte_to_bool, CodecError};
use crate::sysex;
use crate::system::TimeMode;

verus! {

/// Typed view of a 33-byte memory block.
///
/// Used for both stored slots (MEMORY MANUAL, MEMORY 1..=127) and the edit-buffer
/// mirror at `20 00 00 00`; only the address differs.
#[derive(Debug, Clone, PartialEq, Eq)]
pub struct Memory {
    pub tape: Tape,
    pub mode: Mode,
    pub repeat_rate: RangedParam,
    pub intensity: RangedParam,
    pub echo_volume: RangedParam,
    pub bass: RangedParam,
    pub treble: RangedParam,
    pub reverb_volume: RangedParam,
    pub saturation: RangedParam,
    pub wow_flutter: RangedParam,
    pub reverb_sw: bool,
    pub tap_sw: bool,
    /// 0..=2000 ms. The wire format packs this as four 4-bit nibbles, MSB first, at
    /// offsets 0x1C..0x1F.
    pub tap_time_ms: u16,
    pub time_mode: TimeMode,
}

/// A value-with-expression-pedal-range parameter (Repeat Rate, Intensity, etc.).
#[derive(Debug, Clone, Copy, PartialEq, Eq, Structural)]
pub struct RangedParam {
    pub value: u8,
    pub min: u8,
    pub max: u8,
}

/// The error for a ranged-parameter byte above 127.
pub open spec fn ranged_error(field: &'static str, b: u8) -> CodecError {
    CodecError::OutOfRange { field, value: b as u16, valid: "0..=127" }
}

impl RangedParam {
    /// All three bytes are 7-bit values.
    pub open spec fn wf(self) -> bool {
        self.value <= 127 && self.min <= 127 && self.max <= 127
    }

    /// The error for the first of value / min / max above 127, if any.
    pub open spec fn spec_error(self, field: &'static str) -> Option<CodecError> {
        if self.value > 127 {
            Some(ranged_error(field, self.value))
        } else if self.min > 127 {
            Some(ranged_error(field, self.min))
        } else if self.max > 127 {
            Some(ranged_error(field, self.max))
        } else {
            None
        }
    }

    /// Build from three raw 7-bit bytes (each 0..=127).
    pub fn from_bytes(value: u8, min: u8, max: u8, field: &'static str) -> (r: Result<
        Self,
        CodecError,
    >)
        ensures
            match (RangedParam { value, min, max }).spec_error(field) {
                Some(e) => r == Err::<Self, CodecError>(e),
                None => r == Ok::<Self, CodecError>(RangedParam { value, min, max }),
            },
    {
        if value > 127 {
            return Err(CodecError::OutOfRange { field, value: value as u16, valid: "0..=127" });
        }
        if min > 127 {
            return Err(CodecError::OutOfRange { field, value: min as u16, valid: "0..=127" });
        }
        if max > 127 {
            return Err(CodecError::OutOfRange { field, value: max as u16, valid: "0..=127" });
        }
        Ok(Self { value, min, max })
    }

    pub fn to_bytes(self, field: &'static str) -> (r: Result<[u8; 3], CodecError>)
        ensures
            match r {
                Ok(b) => self.spec_error(field) is None && b@ == seq![self.value, self.min, self.max],
                Err(e) => self.spec_error(field) == Some(e),
            },
    {
        if self.value > 127 {
            return Err(
                CodecError::OutOfRange { field, value: self.value as u16, valid: "0..=127" },
            );
        }
        if self.min > 127 {
            return Err(CodecError::OutOfRange { field, value: self.min as u16, valid: "0..=127" });
        }
        if self.max > 127 {
            return Err(CodecError::OutOfRange { field, value: self.max as u16, valid: "0..=127" });
        }
        let b = [self.value, self.min, self.max];
        assert(b@ =~= seq![self.value, self.min, self.max]);
        Ok(b)
    }
}

#[derive(Debug, Clone, Copy, PartialEq, Eq, Structural)]
pub enum Tape {
    New,
    Aged,
}

/// 12 head-combination modes, numbered as on the device's UI (Mode 1..12).
/// Wire byte = `mode_number - 1` (0..=11).
#[derive(Debug, Clone, Copy, PartialEq, Eq, Structural)]
pub enum Mode {
    M1,
    M2,
    M3,
    M4,
    M5,
    M6,
    M7,
    M8,
    M9,
    M10,
    M11,
    M12,
}

impl Tape {
    pub open spec fn spec_from_byte(b: u8) -> Result<Self, CodecError> {
        if b == 0 {
            Ok(Self::New)
        } else if b == 1 {
            Ok(Self::Aged)
        } else {
            Err(CodecError::InvalidValue { field: "tape", value: b, valid: "0=new, 1=aged" })
        }
    }

    pub open spec fn spec_to_byte(self) -> u8 {
        match self {
            Self::New => 0,
            Self::Aged => 1,
        }
    }

    /// Decoding then re-encoding a byte gives that byte back.
    pub proof fn lemma_byte_round_trip(b: u8)
        ensures
            Self::spec_from_byte(b) is Ok ==> (Self::spec_from_byte(b)->Ok_0).spec_to_byte() == b,
    {
    }

    /// Every value decodes back from its own byte.
    pub proof fn lemma_value_round_trip(self)
        ensures
            Self::spec_from_byte(self.spec_to_byte()) == Ok::<Self, CodecError>(self),
    {
    }

    pub fn from_byte(b: u8) -> (r: Result<Self, CodecError>)
        ensures
            r == Self::spec_from_byte(b),
    {
        match b {
            0 => Ok(Self::New),
            1 => Ok(Self::Aged),
            _ => Err(CodecError::InvalidValue { field: "tape", value: b, valid: "0=new, 1=aged" }),
        }
    }

    pub fn to_byte(self) -> (b: u8)
        ensures
            b == self.spec_to_byte(),
    {
        match self {
            Self::New => 0,
            Self::Aged => 1,
        }
    }
}

/// The wire table of the Tape setting: New is written as 0 and Aged as 1, and those two
/// bytes are the only ones that decode, each to the setting written as it.
pub proof fn lemma_tape_wire_bytes(b: u8)
    ensures
        Tape::New.spec_to_byte() == 0,
        Tape::Aged.spec_to_byte() == 1,
        Tape::spec_from_byte(b) is Ok <==> b <= 1,
        Tape::spec_from_byte(b) matches Ok(t) ==> t.spec_to_byte() == b,
{
}

impl Mode {
    /// The mode's number as the device's UI shows it: `Mk` is Mode `k`.
    pub open spec fn number(self) -> nat {
        match self {
            Self::M1 => 1,
            Self::M2 => 2,
            Self::M3 => 3,
            Self::M4 => 4,
            Self::M5 => 5,
            Self::M6 => 6,
            Self::M7 => 7,
            Self::M8 => 8,
            Self::M9 => 9,
            Self::M10 => 10,
            Self::M11 => 11,
            Self::M12 => 12,
        }
    }

    pub open spec fn spec_from_byte(b: u8) -> Result<Self, CodecError> {
        if b == 0 {
            Ok(Self::M1)
        } else if b == 1 {
            Ok(Self::M2)
        } else if b == 2 {
            Ok(Self::M3)
        } else if b == 3 {
            Ok(Self::M4)
        } else if b == 4 {
            Ok(Self::M5)
        } else if b == 5 {
            Ok(Self::M6)
        } else if b == 6 {
            Ok(Self::M7)
        } else if b == 7 {
            Ok(Self::M8)
        } else if b == 8 {
            Ok(Self::M9)
        } else if b == 9 {
            Ok(Self::M10)
        } else if b == 10 {
            Ok(Self::M11)
        } else if b == 11 {
            Ok(Self::M12)
        } else {
            Err(
                CodecError::InvalidValue {
                    field: "mode",
                    value: b,
                    valid: "0..=11 (wire) = Mode 1..=12 (UI)",
                },
            )
        }
    }

    pub open spec fn spec_to_byte(self) -> u8 {
        match self {
            Self::M1 => 0,
            Self::M2 => 1,
            Self::M3 => 2,
            Self::M4 => 3,
            Self::M5 => 4,
            Self::M6 => 5,
            Self::M7 => 6,
            Self::M8 => 7,
            Self::M9 => 8,
            Self::M10 => 9,
            Self::M11 => 10,
            Self::M12 => 11,
        }
    }

    /// Decoding then re-encoding a byte gives that byte back.
    pub proof fn lemma_byte_round_trip(b: u8)
        ensures
            Self::spec_from_byte(b) is Ok ==> (Self::spec_from_byte(b)->Ok_0).spec_to_byte() == b,
    {
    }

    /// Every value decodes back from its own byte.
    pub proof fn lemma_value_round_trip(self)
        ensures
            Self::spec_from_byte(self.spec_to_byte()) == Ok::<Self, CodecError>(self),
    {
    }

    pub fn from_byte(b: u8) -> (r: Result<Self, CodecError>)
        ensures
            r == Self::spec_from_byte(b),
    {
        match b {
            0 => Ok(Self::M1),
            1 => Ok(Self::M2),
            2 => Ok(Self::M3),
            3 => Ok(Self::M4),
            4 => Ok(Self::M5),
            5 => Ok(Self::M6),
            6 => Ok(Self::M7),
            7 => Ok(Self::M8),
            8 => Ok(Self::M9),
            9 => Ok(Self::M10),
            10 => Ok(Self::M11),
            11 => Ok(Self::M12),
            _ => Err(
                CodecError::InvalidValue {
                    field: "mode",
                    value: b,
                    valid: "0..=11 (wire) = Mode 1..=12 (UI)",
                },
            ),
        }
    }

    pub fn to_byte(self) -> (b: u8)
        ensures
            b == self.spec_to_byte(),
    {
        match self {
            Self::M1 => 0,
            Self::M2 => 1,
            Self::M3 => 2,
            Self::M4 => 3,
            Self::M5 => 4,
            Self::M6 => 5,
            Self::M7 => 6,
            Self::M8 => 7,
            Self::M9 => 8,
            Self::M10 => 9,
            Self::M11 => 10,
            Self::M12 => 11,
        }
    }
}

/// The mode byte is the mode's number minus one: Mode `k` is written as byte `k - 1`,
/// exactly the bytes `0..=11` decode, and byte `b` decodes to Mode `b + 1`.
pub proof fn lemma_mode_wire_byte_is_number_minus_one(m: Mode, b: u8)
    ensures
        1 <= m.number() <= 12,
        m.spec_to_byte() + 1 == m.number(),
        Mode::spec_from_byte(b) is Ok <==> b <= 11,
        Mode::spec_from_byte(b) matches Ok(x) ==> x.number() == b + 1,
{
}

// === Tap Time nibble packing ===

/// The error for a Tap Time byte that uses more than its low nibble.
pub open spec fn nibble_error(b: u8) -> CodecError {
    CodecError::InvalidValue { field: "tap_time_nibble", value: b, valid: "0..=15 (low nibble only)" }
}

/// The value four nibbles stand for, most significant first.
pub open spec fn nibbles_value(b: Seq<u8>) -> int {
    b[0] * 4096 + b[1] * 256 + b[2] * 16 + b[3]
}

/// What unpacking four nibble bytes (MSB first) gives: the first byte that uses more than
/// its low nibble is an error, and so is a value above 2000 ms.
pub open spec fn spec_unpack_tap_time(b: Seq<u8>) -> Result<u16, CodecError> {
    if b[0] > 0x0F {
        Err(nibble_error(b[0]))
    } else if b[1] > 0x0F {
        Err(nibble_error(b[1]))
    } else if b[2] > 0x0F {
        Err(nibble_error(b[2]))
    } else if b[3] > 0x0F {
        Err(nibble_error(b[3]))
    } else if nibbles_value(b) > 2000 {
        Err(
            CodecError::OutOfRange {
                field: "tap_time_ms",
                value: nibbles_value(b) as u16,
                valid: "0..=2000",
            },
        )
    } else {
        Ok(nibbles_value(b) as u16)
    }
}

/// The four nibbles of a 16-bit value, most significant first.
pub open spec fn spec_tap_nibbles(ms: u16) -> Seq<u8> {
    seq![(ms / 4096 % 16) as u8, (ms / 256 % 16) as u8, (ms / 16 % 16) as u8, (ms % 16) as u8]
}

/// What packing a Tap Time value gives: its nibbles, or an error above 2000 ms.
pub open spec fn spec_pack_tap_time(ms: u16) -> Result<Seq<u8>, CodecError> {
    if ms > 2000 {
        Err(CodecError::OutOfRange { field: "tap_time_ms", value: ms, valid: "0..=2000" })
    } else {
        Ok(spec_tap_nibbles(ms))
    }
}

/// Unpack 4 nibble bytes into a single 0..=2000 value. Each input byte uses only its low
/// 4 bits (`0000 dddd`), most significant first.
pub fn unpack_tap_time(bytes: &[u8; 4]) -> (r: Result<u16, CodecError>)
    ensures
        r == spec_unpack_tap_time(bytes@),
{
    let mut i: usize = 0;
    while i < 4
        invariant
            0 <= i <= 4,
            forall|j: int| 0 <= j < i ==> bytes@[j] <= 0x0F,
        decreases 4 - i,
    {
        let b = bytes[i];
        if b > 0x0F {
            return Err(
                CodecError::InvalidValue {
                    field: "tap_time_nibble",
                    value: b,
                    valid: "0..=15 (low nibble only)",
                },
            );
        }
        i += 1;
    }
    let b0 = bytes[0];
    let b1 = bytes[1];
    let b2 = bytes[2];
    let b3 = bytes[3];
    let v = ((b0 as u16) << 12) | ((b1 as u16) << 8) | ((b2 as u16) << 4) | (b3 as u16);
    assert(((b0 as u16) << 12) | ((b1 as u16) << 8) | ((b2 as u16) << 4) | (b3 as u16) == (b0
        * 4096 + b1 * 256 + b2 * 16 + b3) as u16) by (bit_vector)
        requires
            b0 <= 15,
            b1 <= 15,
            b2 <= 15,
            b3 <= 15,
    ;
    if v > 2000 {
        return Err(CodecError::OutOfRange { field: "tap_time_ms", value: v, valid: "0..=2000" });
    }
    Ok(v)
}

/// Pack a 0..=2000 value into 4 nibble bytes (low 4 bits each), most significant first.
pub fn pack_tap_time(ms: u16) -> (r: Result<[u8; 4], CodecError>)
    ensures
        match r {
            Ok(b) => spec_pack_tap_time(ms) == Ok::<Seq<u8>, CodecError>(b@),
            Err(e) => spec_pack_tap_time(ms) == Err::<Seq<u8>, CodecError>(e),
        },
{
    if ms > 2000 {
        return Err(CodecError::OutOfRange { field: "tap_time_ms", value: ms, valid: "0..=2000" });
    }
    assert(((ms >> 12) & 0x0F) == ms / 4096 % 16 && ((ms >> 8) & 0x0F) == ms / 256 % 16 && ((ms
        >> 4) & 0x0F) == ms / 16 % 16 && (ms & 0x0F) == ms % 16) by (bit_vector);
    let b = [
        ((ms >> 12) & 0x0F) as u8,
        ((ms >> 8) & 0x0F) as u8,
        ((ms >> 4) & 0x0F) as u8,
        (ms & 0x0F) as u8,
    ];
    assert(b@ =~= spec_tap_nibbles(ms));
    Ok(b)
}

/// Packing then unpacking a Tap Time value gives it back, and the packed nibbles are
/// all valid.
pub proof fn lemma_tap_time_round_trip(ms: u16)
    requires
        ms <= 2000,
    ensures
        spec_unpack_tap_time(spec_tap_nibbles(ms)) == Ok::<u16, CodecError>(ms),
{
    let n = spec_tap_nibbles(ms);
    assert(n[0] == 0);
    assert((ms / 256 % 16) * 256 + (ms / 16 % 16) * 16 + ms % 16 == ms) by (nonlinear_arith)
        requires
            ms <= 2000,
    ;
}

/// Nibbles that unpack are exactly their value's packing.
pub proof fn lemma_tap_nibbles_round_trip(b: Seq<u8>)
    requires
        b.len() == 4,
        spec_unpack_tap_time(b) is Ok,
    ensures
        spec_tap_nibbles(spec_unpack_tap_time(b)->Ok_0) == b,
{
    let v = spec_unpack_tap_time(b)->Ok_0;
    let (b0, b1, b2, b3) = (b[0], b[1], b[2], b[3]);
    assert(v == b0 * 4096 + b1 * 256 + b2 * 16 + b3);
    assert(v / 4096 % 16 == b0 && v / 256 % 16 == b1 && v / 16 % 16 == b2 && v % 16 == b3)
        by (nonlinear_arith)
        requires
            v == b0 * 4096 + b1 * 256 + b2 * 16 + b3,
            b0 <= 15,
            b1 <= 15,
            b2 <= 15,
            b3 <= 15,
    ;
    assert(spec_tap_nibbles(v) =~= b);
}


// === byte codec ===

/// The ranged parameter stored at `offset..offset + 3`.
pub open spec fn ranged_at(s: Seq<u8>, offset: int) -> RangedParam {
    RangedParam { value: s[offset], min: s[offset + 1], max: s[offset + 2] }
}

/// The three bytes a ranged parameter is written as.
pub open spec fn ranged_bytes(p: RangedParam) -> Seq<u8> {
    seq![p.value, p.min, p.max]
}

/// The memory that 33 valid bytes describe (each field read from its offset).
pub open spec fn spec_memory_value(s: Seq<u8>) -> Memory {
    Memory {
        tape: Tape::spec_from_byte(s[0x00])->Ok_0,
        mode: Mode::spec_from_byte(s[0x01])->Ok_0,
        repeat_rate: ranged_at(s, 2),
        intensity: ranged_at(s, 5),
        echo_volume: ranged_at(s, 8),
        bass: ranged_at(s, 11),
        treble: ranged_at(s, 14),
        reverb_volume: ranged_at(s, 17),
        saturation: ranged_at(s, 20),
        wow_flutter: ranged_at(s, 23),
        reverb_sw: codec::spec_byte_to_bool(s[0x1A], "reverb_sw")->Ok_0,
        tap_sw: codec::spec_byte_to_bool(s[0x1B], "tap_sw")->Ok_0,
        tap_time_ms: spec_unpack_tap_time(s.subrange(0x1C, 0x20))->Ok_0,
        time_mode: TimeMode::spec_from_byte(s[0x20])->Ok_0,
    }
}

/// What decoding a byte sequence as a memory block gives: a length error, else the
/// error of the first field (in offset order) whose bytes are invalid, else the value.
pub open spec fn spec_memory_from_bytes(s: Seq<u8>) -> Result<Memory, CodecError> {
    if s.len() != MEMORY_BLOCK_LEN {
        Err(CodecError::WrongLength { expected: MEMORY_BLOCK_LEN, actual: s.len() as usize })
    } else if let Err(e) = Tape::spec_from_byte(s[0x00]) {
        Err(e)
    } else if let Err(e) = Mode::spec_from_byte(s[0x01]) {
        Err(e)
    } else if let Some(e) = ranged_at(s, 2).spec_error("repeat_rate") {
        Err(e)
    } else if let Some(e) = ranged_at(s, 5).spec_error("intensity") {
        Err(e)
    } else if let Some(e) = ranged_at(s, 8).spec_error("echo_volume") {
        Err(e)
    } else if let Some(e) = ranged_at(s, 11).spec_error("bass") {
        Err(e)
    } else if let Some(e) = ranged_at(s, 14).spec_error("treble") {
        Err(e)
    } else if let Some(e) = ranged_at(s, 17).spec_error("reverb_volume") {
        Err(e)
    } else if let Some(e) = ranged_at(s, 20).spec_error("saturation") {
        Err(e)
    } else if let Some(e) = ranged_at(s, 23).spec_error("wow_flutter") {
        Err(e)
    } else if let Err(e) = codec::spec_byte_to_bool(s[0x1A], "reverb_sw") {
        Err(e)
    } else if let Err(e) = codec::spec_byte_to_bool(s[0x1B], "tap_sw") {
        Err(e)
    } else if let Err(e) = spec_unpack_tap_time(s.subrange(0x1C, 0x20)) {
        Err(e)
    } else if let Err(e) = TimeMode::spec_from_byte(s[0x20]) {
        Err(e)
    } else {
        Ok(spec_memory_value(s))
    }
}

/// The 33 bytes a memory is written as, when it can be.
pub open spec fn spec_memory_bytes(m: Memory) -> Seq<u8> {
    seq![m.tape.spec_to_byte(), m.mode.spec_to_byte()] + ranged_bytes(m.repeat_rate) + ranged_bytes(m.intensity) + ranged_bytes(m.echo_volume) + ranged_bytes(m.bass) + ranged_bytes(m.treble) + ranged_bytes(m.reverb_volume) + ranged_bytes(m.saturation) + ranged_bytes(m.wow_flutter) + seq![
        codec::spec_bool_to_byte(m.reverb_sw),
        codec::spec_bool_to_byte(m.tap_sw),
    ] + spec_tap_nibbles(m.tap_time_ms) + seq![m.time_mode.spec_to_byte()]
}

/// What encoding a memory gives: the error of the first ranged parameter with a byte
/// above 127, else a Tap Time error above 2000 ms, else its 33 bytes.
pub open spec fn spec_memory_to_bytes(m: Memory) -> Result<Seq<u8>, CodecError> {
    if let Some(e) = m.repeat_rate.spec_error("repeat_rate") {
        Err(e)
    } else if let Some(e) = m.intensity.spec_error("intensity") {
        Err(e)
    } else if let Some(e) = m.echo_volume.spec_error("echo_volume") {
        Err(e)
    } else if let Some(e) = m.bass.spec_error("bass") {
        Err(e)
    } else if let Some(e) = m.treble.spec_error("treble") {
        Err(e)
    } else if let Some(e) = m.reverb_volume.spec_error("reverb_volume") {
        Err(e)
    } else if let Some(e) = m.saturation.spec_error("saturation") {
        Err(e)
    } else if let Some(e) = m.wow_flutter.spec_error("wow_flutter") {
        Err(e)
    } else if let Err(e) = spec_pack_tap_time(m.tap_time_ms) {
        Err(e)
    } else {
        Ok(spec_memory_bytes(m))
    }
}

impl Memory {
    pub fn from_bytes(bytes: &[u8]) -> (r: Result<Self, CodecError>)
        ensures
            r == spec_memory_from_bytes(bytes@),
    {
        if bytes.len() != MEMORY_BLOCK_LEN {
            return Err(CodecError::WrongLength { expected: MEMORY_BLOCK_LEN, actual: bytes.len() });
        }
        let tap: [u8; 4] = [bytes[0x1C], bytes[0x1D], bytes[0x1E], bytes[0x1F]];
        assert(tap@ =~= bytes@.subrange(0x1C, 0x20));
        let tape = Tape::from_byte(bytes[0x00])?;
        let mode = Mode::from_byte(bytes[0x01])?;
        let repeat_rate = RangedParam::from_bytes(
            bytes[2],
            bytes[3],
            bytes[4],
            "repeat_rate",
        )?;
        let intensity = RangedParam::from_bytes(
            bytes[5],
            bytes[6],
            bytes[7],
            "intensity",
        )?;
        let echo_volume = RangedParam::from_bytes(
            bytes[8],
            bytes[9],
            bytes[10],
            "echo_volume",
        )?;
        let bass = RangedParam::from_bytes(
            bytes[11],
            bytes[12],
            bytes[13],
            "bass",
        )?;
        let treble = RangedParam::from_bytes(
            bytes[14],
            bytes[15],
            bytes[16],
            "treble",
        )?;
        let reverb_volume = RangedParam::from_bytes(
            bytes[17],
            bytes[18],
            bytes[19],
            "reverb_volume",
        )?;
        let saturation = RangedParam::from_bytes(
            bytes[20],
            bytes[21],
            bytes[22],
            "saturation",
        )?;
        let wow_flutter = RangedParam::from_bytes(
            bytes[23],
            bytes[24],
            bytes[25],
            "wow_flutter",
        )?;
        let reverb_sw = byte_to_bool(bytes[0x1A], "reverb_sw")?;
        let tap_sw = byte_to_bool(bytes[0x1B], "tap_sw")?;
        let tap_time_ms = unpack_tap_time(&tap)?;
        let time_mode = TimeMode::from_byte(bytes[0x20])?;
        Ok(
            Self {
                tape,
                mode,
                repeat_rate,
                intensity,
                echo_volume,
                bass,
                treble,
                reverb_volume,
                saturation,
                wow_flutter,
                reverb_sw,
                tap_sw,
                tap_time_ms,
                time_mode,
            },
        )
    }

    pub fn to_bytes(&self) -> (r: Result<[u8; MEMORY_BLOCK_LEN], CodecError>)
        ensures
            match r {
                Ok(b) => spec_memory_to_bytes(*self) == Ok::<Seq<u8>, CodecError>(b@),
                Err(e) => spec_memory_to_bytes(*self) == Err::<Seq<u8>, CodecError>(e),
            },
    {
        let tape = self.tape.to_byte();
        let mode = self.mode.to_byte();
        let repeat_rate = self.repeat_rate.to_bytes("repeat_rate")?;
        let intensity = self.intensity.to_bytes("intensity")?;
        let echo_volume = self.echo_volume.to_bytes("echo_volume")?;
        let bass = self.bass.to_bytes("bass")?;
        let treble = self.treble.to_bytes("treble")?;
        let reverb_volume = self.reverb_volume.to_bytes("reverb_volume")?;
        let saturation = self.saturation.to_bytes("saturation")?;
        let wow_flutter = self.wow_flutter.to_bytes("wow_flutter")?;
        let reverb_sw = bool_to_byte(self.reverb_sw);
        let tap_sw = bool_to_byte(self.tap_sw);
        let tap = pack_tap_time(self.tap_time_ms)?;
        let time_mode = self.time_mode.to_byte();
        let b0: u8 = tape;
        let b1: u8 = mode;
        let b2: u8 = repeat_rate[0];
        let b3: u8 = repeat_rate[1];
        let b4: u8 = repeat_rate[2];
        let b5: u8 = intensity[0];
        let b6: u8 = intensity[1];
        let b7: u8 = intensity[2];
        let b8: u8 = echo_volume[0];
        let b9: u8 = echo_volume[1];
        let b10: u8 = echo_volume[2];
        let b11: u8 = bass[0];
        let b12: u8 = bass[1];
        let b13: u8 = bass[2];
        let b14: u8 = treble[0];
        let b15: u8 = treble[1];
        let b16: u8 = treble[2];
        let b17: u8 = reverb_volume[0];
        let b18: u8 = reverb_volume[1];
        let b19: u8 = reverb_volume[2];
        let b20: u8 = saturation[0];
        let b21: u8 = saturation[1];
        let b22: u8 = saturation[2];
        let b23: u8 = wow_flutter[0];
        let b24: u8 = wow_flutter[1];
        let b25: u8 = wow_flutter[2];
        let b26: u8 = reverb_sw;
        let b27: u8 = tap_sw;
        let b28: u8 = tap[0];
        let b29: u8 = tap[1];
        let b30: u8 = tap[2];
        let b31: u8 = tap[3];
        let b32: u8 = time_mode;
        let b: [u8; MEMORY_BLOCK_LEN] = [b0, b1, b2, b3, b4, b5, b6, b7, b8, b9, b10, b11, b12, b13, b14, b15, b16, b17, b18, b19, b20, b21, b22, b23, b24, b25, b26, b27, b28, b29, b30, b31, b32];
        assert(b@ =~= seq![b0, b1, b2, b3, b4, b5, b6, b7, b8, b9, b10, b11, b12, b13, b14, b15, b16, b17, b18, b19, b20, b21, b22, b23, b24, b25, b26, b27, b28, b29, b30, b31, b32]);
        assert(spec_memory_bytes(*self) =~= seq![b0, b1, b2, b3, b4, b5, b6, b7, b8, b9, b10, b11, b12, b13, b14, b15, b16, b17, b18, b19, b20, b21, b22, b23, b24, b25, b26, b27, b28, b29, b30, b31, b32]);
        Ok(b)
    }
}

/// The encoding of a memory, byte by byte.
proof fn lemma_memory_bytes_flat(m: Memory)
    ensures
        spec_memory_bytes(m) == seq![
        m.tape.spec_to_byte(),
        m.mode.spec_to_byte(),
        m.repeat_rate.value,
        m.repeat_rate.min,
        m.repeat_rate.max,
        m.intensity.value,
        m.intensity.min,
        m.intensity.max,
        m.echo_volume.value,
        m.echo_volume.min,
        m.echo_volume.max,
        m.bass.value,
        m.bass.min,
        m.bass.max,
        m.treble.value,
        m.treble.min,
        m.treble.max,
        m.reverb_volume.value,
        m.reverb_volume.min,
        m.reverb_volume.max,
        m.saturation.value,
        m.saturation.min,
        m.saturation.max,
        m.wow_flutter.value,
        m.wow_flutter.min,
        m.wow_flutter.max,
        codec::spec_bool_to_byte(m.reverb_sw),
        codec::spec_bool_to_byte(m.tap_sw),
        spec_tap_nibbles(m.tap_time_ms)[0],
        spec_tap_nibbles(m.tap_time_ms)[1],
        spec_tap_nibbles(m.tap_time_ms)[2],
        spec_tap_nibbles(m.tap_time_ms)[3],
        m.time_mode.spec_to_byte(),
    ],
{
    assert(spec_memory_bytes(m) =~= seq![
        m.tape.spec_to_byte(),
        m.mode.spec_to_byte(),
        m.repeat_rate.value,
        m.repeat_rate.min,
        m.repeat_rate.max,
        m.intensity.value,
        m.intensity.min,
        m.intensity.max,
        m.echo_volume.value,
        m.echo_volume.min,
        m.echo_volume.max,
        m.bass.value,
        m.bass.min,
        m.bass.max,
        m.treble.value,
        m.treble.min,
        m.treble.max,
        m.reverb_volume.value,
        m.reverb_volume.min,
        m.reverb_volume.max,
        m.saturation.value,
        m.saturation.min,
        m.saturation.max,
        m.wow_flutter.value,
        m.wow_flutter.min,
        m.wow_flutter.max,
        codec::spec_bool_to_byte(m.reverb_sw),
        codec::spec_bool_to_byte(m.tap_sw),
        spec_tap_nibbles(m.tap_time_ms)[0],
        spec_tap_nibbles(m.tap_time_ms)[1],
        spec_tap_nibbles(m.tap_time_ms)[2],
        spec_tap_nibbles(m.tap_time_ms)[3],
        m.time_mode.spec_to_byte(),
    ]);
}

/// A memory block's wire layout: 33 bytes with Tape at `00`, Mode at `01`, each ranged
/// parameter's value / min / max at `02`..`19` (Repeat Rate, Intensity, Echo Volume, Bass,
/// Treble, Reverb Volume, Saturation, Wow & Flutter), Reverb Sw at `1A`, Tap Sw at `1B`,
/// the Tap Time as four nibbles most significant first at `1C`..`1F`, and Time Mode at `20`.
pub proof fn lemma_memory_wire_layout(m: Memory)
    requires
        spec_memory_to_bytes(m) is Ok,
    ensures
        ({
            let b = spec_memory_to_bytes(m)->Ok_0;
            &&& b.len() == 33
            &&& b[0x00] == m.tape.spec_to_byte()
            &&& b[0x01] == m.mode.spec_to_byte()
            &&& b[0x02] == m.repeat_rate.value && b[0x03] == m.repeat_rate.min
                && b[0x04] == m.repeat_rate.max
            &&& b[0x05] == m.intensity.value && b[0x06] == m.intensity.min
                && b[0x07] == m.intensity.max
            &&& b[0x08] == m.echo_volume.value && b[0x09] == m.echo_volume.min
                && b[0x0A] == m.echo_volume.max
            &&& b[0x0B] == m.bass.value && b[0x0C] == m.bass.min && b[0x0D] == m.bass.max
            &&& b[0x0E] == m.treble.value && b[0x0F] == m.treble.min && b[0x10] == m.treble.max
            &&& b[0x11] == m.reverb_volume.value && b[0x12] == m.reverb_volume.min
                && b[0x13] == m.reverb_volume.max
            &&& b[0x14] == m.saturation.value && b[0x15] == m.saturation.min
                && b[0x16] == m.saturation.max
            &&& b[0x17] == m.wow_flutter.value && b[0x18] == m.wow_flutter.min
                && b[0x19] == m.wow_flutter.max
            &&& b[0x1A] == codec::spec_bool_to_byte(m.reverb_sw)
            &&& b[0x1B] == codec::spec_bool_to_byte(m.tap_sw)
            &&& b[0x1C] < 16 && b[0x1D] < 16 && b[0x1E] < 16 && b[0x1F] < 16
            &&& b[0x1C] * 4096 + b[0x1D] * 256 + b[0x1E] * 16 + b[0x1F] == m.tap_time_ms
            &&& b[0x20] == m.time_mode.spec_to_byte()
        }),
{
    lemma_memory_bytes_flat(m);
    lemma_tap_time_round_trip(m.tap_time_ms);
    let n = spec_tap_nibbles(m.tap_time_ms);
    assert(n[0] < 16 && n[1] < 16 && n[2] < 16 && n[3] < 16);
}

/// Every memory that encodes decodes back from its bytes to itself.
#[verifier::spinoff_prover]
pub proof fn lemma_memory_value_round_trip(m: Memory)
    requires
        spec_memory_to_bytes(m) is Ok,
    ensures
        spec_memory_from_bytes(spec_memory_to_bytes(m)->Ok_0) == Ok::<Memory, CodecError>(m),
{
    let s = spec_memory_bytes(m);
    assert(spec_memory_to_bytes(m)->Ok_0 == s);
    lemma_memory_bytes_flat(m);
    m.tape.lemma_value_round_trip();
    m.mode.lemma_value_round_trip();
    m.time_mode.lemma_value_round_trip();
    codec::lemma_bool_byte_round_trip(0, m.reverb_sw, "reverb_sw");
    codec::lemma_bool_byte_round_trip(0, m.tap_sw, "tap_sw");
    lemma_tap_time_round_trip(m.tap_time_ms);
    assert(s.subrange(0x1C, 0x20) =~= spec_tap_nibbles(m.tap_time_ms));
    assert(ranged_at(s, 2) == m.repeat_rate);
    assert(ranged_at(s, 5) == m.intensity);
    assert(ranged_at(s, 8) == m.echo_volume);
    assert(ranged_at(s, 11) == m.bass);
    assert(ranged_at(s, 14) == m.treble);
    assert(ranged_at(s, 17) == m.reverb_volume);
    assert(ranged_at(s, 20) == m.saturation);
    assert(ranged_at(s, 23) == m.wow_flutter);
    assert(spec_memory_value(s) == m);
}

/// Bytes that decode as a memory re-encode to exactly those bytes.
#[verifier::spinoff_prover]
pub proof fn lemma_memory_bytes_round_trip(s: Seq<u8>)
    requires
        spec_memory_from_bytes(s) is Ok,
    ensures
        spec_memory_to_bytes(spec_memory_from_bytes(s)->Ok_0) == Ok::<Seq<u8>, CodecError>(s),
{
    let m = spec_memory_from_bytes(s)->Ok_0;
    assert(m == spec_memory_value(s));
    Tape::lemma_byte_round_trip(s[0x00]);
    Mode::lemma_byte_round_trip(s[0x01]);
    TimeMode::lemma_byte_round_trip(s[0x20]);
    codec::lemma_bool_byte_round_trip(s[0x1A], true, "reverb_sw");
    codec::lemma_bool_byte_round_trip(s[0x1B], true, "tap_sw");
    lemma_tap_nibbles_round_trip(s.subrange(0x1C, 0x20));
    assert(spec_memory_bytes(m) =~= s);
}

/// Appending a valid ranged parameter's three bytes to 7-bit clean bytes keeps them clean.
proof fn lemma_append_ranged_7bit(acc: Seq<u8>, p: RangedParam, field: &'static str)
    requires
        sysex::is_7bit(acc),
        p.spec_error(field) is None,
    ensures
        sysex::is_7bit(acc + ranged_bytes(p)),
{
    let r = ranged_bytes(p);
    assert(sysex::is_7bit(r)) by {
        assert(r[0] < 0x80 && r[1] < 0x80 && r[2] < 0x80);
    }
    sysex::lemma_7bit_concat(acc, r);
}

/// A memory that encodes is written with 7-bit clean bytes only, as SysEx data must be.
pub proof fn lemma_memory_bytes_7bit(m: Memory)
    requires
        spec_memory_to_bytes(m) is Ok,
    ensures
        sysex::is_7bit(spec_memory_bytes(m)),
{
    m.time_mode.lemma_value_round_trip();
    codec::lemma_bool_byte_round_trip(0, m.reverb_sw, "reverb_sw");
    codec::lemma_bool_byte_round_trip(0, m.tap_sw, "tap_sw");
    let head = seq![m.tape.spec_to_byte(), m.mode.spec_to_byte()];
    assert(sysex::is_7bit(head)) by {
        assert(head[0] < 0x80 && head[1] < 0x80);
    }
    let mut acc = head;
    lemma_append_ranged_7bit(acc, m.repeat_rate, "repeat_rate");
    acc = acc + ranged_bytes(m.repeat_rate);
    lemma_append_ranged_7bit(acc, m.intensity, "intensity");
    acc = acc + ranged_bytes(m.intensity);
    lemma_append_ranged_7bit(acc, m.echo_volume, "echo_volume");
    acc = acc + ranged_bytes(m.echo_volume);
    lemma_append_ranged_7bit(acc, m.bass, "bass");
    acc = acc + ranged_bytes(m.bass);
    lemma_append_ranged_7bit(acc, m.treble, "treble");
    acc = acc + ranged_bytes(m.treble);
    lemma_append_ranged_7bit(acc, m.reverb_volume, "reverb_volume");
    acc = acc + ranged_bytes(m.reverb_volume);
    lemma_append_ranged_7bit(acc, m.saturation, "saturation");
    acc = acc + ranged_bytes(m.saturation);
    lemma_append_ranged_7bit(acc, m.wow_flutter, "wow_flutter");
    acc = acc + ranged_bytes(m.wow_flutter);
    let flags = seq![codec::spec_bool_to_byte(m.reverb_sw), codec::spec_bool_to_byte(m.tap_sw)];
    assert(sysex::is_7bit(flags)) by {
        assert(flags[0] < 0x80 && flags[1] < 0x80);
    }
    sysex::lemma_7bit_concat(acc, flags);
    acc = acc + flags;
    let nib = spec_tap_nibbles(m.tap_time_ms);
    assert(sysex::is_7bit(nib)) by {
        assert(nib[0] < 0x80 && nib[1] < 0x80 && nib[2] < 0x80 && nib[3] < 0x80);
    }
    sysex::lemma_7bit_concat(acc, nib);
    acc = acc + nib;
    let tail = seq![m.time_mode.spec_to_byte()];
    assert(sysex::is_7bit(tail)) by {
        assert(tail[0] < 0x80);
    }
    sysex::lemma_7bit_concat(acc, tail);
    acc = acc + tail;
    assert(acc == spec_memory_bytes(m));
}

} // verus!
