//! Errors shared by the typed System / Memory codecs, and the byte helpers both use.
use vstd::prelude::*;

verus! {

#[derive(Debug, Clone, PartialEq, Eq)]
pub enum CodecError {
    WrongLength { expected: usize, actual: usize },
    InvalidValue { field: &'static str, value: u8, valid: &'static str },
    OutOfRange { field: &'static str, value: u16, valid: &'static str },
}

/// What decoding a 0/1 flag byte gives.
pub open spec fn spec_byte_to_bool(b: u8, field: &'static str) -> Result<bool, CodecError> {
    if b == 0 {
        Ok(false)
    } else if b == 1 {
        Ok(true)
    } else {
        Err(CodecError::InvalidValue { field, value: b, valid: "0 or 1" })
    }
}

/// Decode a 0/1 flag byte.
pub fn byte_to_bool(b: u8, field: &'static str) -> (r: Result<bool, CodecError>)
    ensures
        r == spec_byte_to_bool(b, field),
{
    match b {
        0 => Ok(false),
        1 => Ok(true),
        _ => Err(CodecError::InvalidValue { field, value: b, valid: "0 or 1" }),
    }
}

/// The byte a flag is written as.
#[verifier::opaque]
pub open spec fn spec_bool_to_byte(v: bool) -> u8 {
    if v {
        1
    } else {
        0
    }
}

/// Encode a flag as a 0/1 byte.
pub fn bool_to_byte(v: bool) -> (b: u8)
    ensures
        b == spec_bool_to_byte(v),
{
    reveal(spec_bool_to_byte);
    if v {
        1
    } else {
        0
    }
}

/// A flag byte and its decoded value map back and forth without loss.
pub proof fn lemma_bool_byte_round_trip(b: u8, v: bool, field: &'static str)
    ensures
        spec_byte_to_bool(b, field) is Ok ==> spec_bool_to_byte(spec_byte_to_bool(b, field)->Ok_0) == b,
        spec_byte_to_bool(spec_bool_to_byte(v), field) == Ok::<bool, CodecError>(v),
        spec_bool_to_byte(v) < 0x80,
{
    reveal(spec_bool_to_byte);
}

/// A flag is written as 1 when on and 0 when off; exactly those two bytes decode, 1 as on
/// and 0 as off.
pub proof fn lemma_flag_wire_bytes(b: u8, field: &'static str)
    ensures
        spec_bool_to_byte(true) == 1,
        spec_bool_to_byte(false) == 0,
        spec_byte_to_bool(b, field) is Ok <==> b <= 1,
        spec_byte_to_bool(b, field) matches Ok(v) ==> (v <==> b == 1),
{
    reveal(spec_bool_to_byte);
}

} // verus!
