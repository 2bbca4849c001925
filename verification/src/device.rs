//! The RE-202 as an addressable device: the areas a document can target, the request
//! and data-set frames for each, and what an inbound message means at device level.
//!
//! Areas:
//!
//! - `system` — the global System area (18 bytes, `10 00 00 00`).
//! - `memory` — MEMORY MANUAL, the live manual-mode patch (`20 10 00 00`).
//! - `memory-1` … `memory-127` — the 127 stored user slots.
//! - `edit` — the edit-buffer mirror of the currently-active memory (`20 00 00 00`).
use vstd::prelude::*;
use vstd::string::*;

use crate::address::{
    self, AddressSpace, MemorySlot, EDIT_BUFFER_BASE, MEMORY_BLOCK_LEN, MEMORY_SLOT_MAX, SYSTEM_BASE,
};
use crate::codec::CodecError;
use crate::inbound::{classify_inbound as core_classify_inbound, InboundMessage};
use crate::memory::{self, Memory};
use crate::sysex::{self, Frame, CMD_DT1, CMD_RQ1};
use crate::system::{self, SystemArea, SYSTEM_AREA_LEN};

verus! {

// === decimal text ===

/// The character for a decimal digit `d` (0..=9).
pub open spec fn digit_char(d: nat) -> char {
    if d == 0 {
        '0'
    } else if d == 1 {
        '1'
    } else if d == 2 {
        '2'
    } else if d == 3 {
        '3'
    } else if d == 4 {
        '4'
    } else if d == 5 {
        '5'
    } else if d == 6 {
        '6'
    } else if d == 7 {
        '7'
    } else if d == 8 {
        '8'
    } else {
        '9'
    }
}

pub open spec fn is_digit(c: char) -> bool {
    48 <= (c as u32) <= 57
}

pub open spec fn digit_value(c: char) -> nat {
    ((c as u32) - 48) as nat
}

/// The value of a string of decimal digits (most significant first).
pub open spec fn decimal_value(d: Seq<char>) -> nat
    decreases d.len(),
{
    if d.len() == 0 {
        0
    } else {
        decimal_value(d.drop_last()) * 10 + digit_value(d.last())
    }
}

/// The decimal text of `n`, without leading zeros.
pub open spec fn spec_decimal(n: nat) -> Seq<char>
    decreases n,
{
    if n < 10 {
        seq![digit_char(n)]
    } else {
        spec_decimal(n / 10).push(digit_char(n % 10))
    }
}

/// Every character of `d` is a decimal digit.
pub open spec fn all_digits(d: Seq<char>) -> bool {
    forall|i: int| 0 <= i < d.len() ==> is_digit(#[trigger] d[i])
}

/// The digit part of a number's text: everything after an optional leading `+`.
pub open spec fn digits_part(s: Seq<char>) -> Seq<char> {
    if s.len() > 0 && s[0] == '+' {
        s.drop_first()
    } else {
        s
    }
}

/// What parsing text as a `u8` gives: an optional leading `+`, then one or more decimal
/// digits whose value is at most 255.
pub open spec fn spec_parse_u8(s: Seq<char>) -> Option<u8> {
    let digits = digits_part(s);
    if digits.len() == 0 || !all_digits(digits) || decimal_value(digits) > 255 {
        None
    } else {
        Some(decimal_value(digits) as u8)
    }
}

/// `s` and `lit` are the same text.
fn str_equals(s: &str, lit: &str) -> (b: bool)
    ensures
        b == (s@ == lit@),
{
    let n = s.unicode_len();
    if n != lit.unicode_len() {
        return false;
    }
    let mut i: usize = 0;
    while i < n
        invariant
            n == s@.len(),
            n == lit@.len(),
            0 <= i <= n,
            forall|j: int| 0 <= j < i ==> s@[j] == lit@[j],
        decreases n - i,
    {
        if s.get_char(i) != lit.get_char(i) {
            return false;
        }
        i += 1;
    }
    assert(s@ =~= lit@);
    true
}

/// `s` starts with the text `prefix`.
fn str_starts_with(s: &str, prefix: &str) -> (b: bool)
    ensures
        b == (prefix@.len() <= s@.len() && s@.take(prefix@.len() as int) == prefix@),
{
    let n = prefix.unicode_len();
    if n > s.unicode_len() {
        return false;
    }
    let mut i: usize = 0;
    while i < n
        invariant
            n == prefix@.len(),
            n <= s@.len(),
            0 <= i <= n,
            forall|j: int| 0 <= j < i ==> s@[j] == prefix@[j],
        decreases n - i,
    {
        if s.get_char(i) != prefix.get_char(i) {
            assert(s@.take(n as int)[i as int] != prefix@[i as int]);
            return false;
        }
        i += 1;
    }
    assert(s@.take(n as int) =~= prefix@);
    true
}

/// Parse the text of `s` from character `start` on as a `u8`, as `str::parse::<u8>` does.
fn parse_u8_from(s: &str, start: usize) -> (r: Option<u8>)
    requires
        start <= s@.len(),
    ensures
        r == spec_parse_u8(s@.skip(start as int)),
{
    let n = s.unicode_len();
    let ghost t = s@.skip(start as int);
    let mut i = start;
    if i < n && s.get_char(i) == '+' {
        i += 1;
    }
    let first = i;
    let ghost digits = s@.subrange(first as int, n as int);
    assert(digits =~= digits_part(t));
    if i == n {
        return None;
    }
    let mut v: u32 = 0;
    while i < n
        invariant
            n == s@.len(),
            first <= i <= n,
            digits == s@.subrange(first as int, n as int),
            t == s@.skip(start as int),
            digits == digits_part(t),
            forall|j: int| first <= j < i ==> is_digit(#[trigger] s@[j]),
            v == (if decimal_value(s@.subrange(first as int, i as int)) < 256 {
                decimal_value(s@.subrange(first as int, i as int))
            } else {
                256
            }),
        decreases n - i,
    {
        let c = s.get_char(i);
        let code = c as u32;
        if !(48 <= code && code <= 57) {
            assert(!is_digit(digits[i - first]));
            return None;
        }
        let ghost prev = s@.subrange(first as int, i as int);
        assert(s@.subrange(first as int, i + 1).drop_last() == prev);
        let next = v * 10 + (code - 48);
        v = if next < 256 {
            next
        } else {
            256
        };
        i += 1;
    }
    assert(s@.subrange(first as int, i as int) == digits);
    if v > 255 {
        None
    } else {
        Some(v as u8)
    }
}

// === areas ===

/// What a (canonical) area name targets on the wire.
#[derive(Debug, Clone, Copy)]
pub enum Target {
    /// The 18-byte System area.
    System,
    /// A 33-byte memory block at the given base address.
    Memory([u8; 4]),
}

/// The user slot a `memory-N` name designates, if the name has that shape and `N` parses.
pub open spec fn spec_user_slot_of_name(area: Seq<char>) -> Option<u8> {
    if area.len() >= 7 && area.take(7) == "memory-"@ {
        spec_parse_u8(area.skip(7))
    } else {
        None
    }
}

/// The base address an area name targets: `system`, `memory` (MANUAL), `edit`, and
/// `memory-1` … `memory-127`; `None` for any other name.
pub open spec fn spec_area_address(area: Seq<char>) -> Option<Seq<u8>> {
    if area == "system"@ {
        Some(SYSTEM_BASE@)
    } else if area == "memory"@ {
        Some(address::spec_slot_address(0))
    } else if area == "edit"@ {
        Some(EDIT_BUFFER_BASE@)
    } else if let Some(n) = spec_user_slot_of_name(area) {
        if 1 <= n <= MEMORY_SLOT_MAX {
            Some(address::spec_slot_address(n as nat))
        } else {
            None
        }
    } else {
        None
    }
}

/// Resolve a (canonical) area name to its wire target.
pub fn target_for(area: &str) -> (t: Option<Target>)
    ensures
        match t {
            None => spec_area_address(area@) is None,
            Some(Target::System) => area@ == "system"@,
            Some(Target::Memory(a)) => area@ != "system"@ && spec_area_address(area@) == Some(a@),
        },
{
    if str_equals(area, "system") {
        return Some(Target::System);
    }
    if str_equals(area, "memory") {
        return Some(Target::Memory(MemorySlot::Manual.base_address()));
    }
    if str_equals(area, "edit") {
        return Some(Target::Memory(EDIT_BUFFER_BASE));
    }
    if !str_starts_with(area, "memory-") {
        return None;
    }
    proof {
        reveal_strlit("memory-");
    }
    let n = match parse_u8_from(area, 7) {
        Some(n) => n,
        None => return None,
    };
    match MemorySlot::from_index(n) {
        Some(MemorySlot::User(k)) => Some(Target::Memory(MemorySlot::User(k).base_address())),
        _ => None,
    }
}


/// The text of one decimal digit.
fn digit_str(d: u8) -> (s: &'static str)
    requires
        d < 10,
    ensures
        s@ == seq![digit_char(d as nat)],
{
    match d {
        0 => {
            proof {
                reveal_strlit("0");
            }
            "0"
        },
        1 => {
            proof {
                reveal_strlit("1");
            }
            "1"
        },
        2 => {
            proof {
                reveal_strlit("2");
            }
            "2"
        },
        3 => {
            proof {
                reveal_strlit("3");
            }
            "3"
        },
        4 => {
            proof {
                reveal_strlit("4");
            }
            "4"
        },
        5 => {
            proof {
                reveal_strlit("5");
            }
            "5"
        },
        6 => {
            proof {
                reveal_strlit("6");
            }
            "6"
        },
        7 => {
            proof {
                reveal_strlit("7");
            }
            "7"
        },
        8 => {
            proof {
                reveal_strlit("8");
            }
            "8"
        },
        _ => {
            proof {
                reveal_strlit("9");
            }
            "9"
        },
    }
}

/// The decimal text of `n`.
pub fn decimal_string(n: u8) -> (s: String)
    ensures
        s@ == spec_decimal(n as nat),
{
    let mut s = String::new();
    if n >= 100 {
        s.append(digit_str(n / 100));
    }
    if n >= 10 {
        s.append(digit_str(n / 10 % 10));
    }
    s.append(digit_str(n % 10));
    proof {
        reveal_with_fuel(spec_decimal, 3);
        let m = n as nat;
        if m >= 10 {
            assert(spec_decimal(m) == spec_decimal(m / 10).push(digit_char(m % 10)));
            if m >= 100 {
                assert(m / 10 / 10 == m / 100);
                assert(spec_decimal(m / 10) == spec_decimal(m / 100).push(digit_char(m / 10 % 10)));
            }
        }
    }
    assert(s@ =~= spec_decimal(n as nat));
    s
}

/// `a` and `b` are the same address.
fn same_address(a: [u8; 4], b: [u8; 4]) -> (same: bool)
    ensures
        same == (a@ == b@),
{
    let same = a[0] == b[0] && a[1] == b[1] && a[2] == b[2] && a[3] == b[3];
    if same {
        assert(a@ =~= b@);
    } else {
        assert(a@ != b@) by {
            if a@ == b@ {
                assert(a@[0] == b@[0] && a@[1] == b@[1] && a@[2] == b@[2] && a@[3] == b@[3]);
            }
        }
    }
    same
}

/// `n` is a user slot whose base address is `a`.
pub open spec fn is_user_slot_at(n: int, a: Seq<u8>) -> bool {
    1 <= n <= MEMORY_SLOT_MAX && address::spec_slot_address(n as nat) == a
}

/// The area an address belongs to: every `10 ..` address is `system`; among the
/// memory-space addresses (`20 ..` through `30 ..`), the edit buffer, MANUAL and the user
/// slots are `edit`, `memory` and `memory-N`; nothing else has a name.
pub open spec fn spec_area_name(a: Seq<u8>) -> Option<Seq<char>> {
    match address::spec_classify(a[0]) {
        AddressSpace::System => Some("system"@),
        AddressSpace::Memory => if a == EDIT_BUFFER_BASE@ {
            Some("edit"@)
        } else if a == address::spec_slot_address(0) {
            Some("memory"@)
        } else if exists|n: int| is_user_slot_at(n, a) {
            Some("memory-"@ + spec_decimal((choose|n: int| is_user_slot_at(n, a)) as nat))
        } else {
            None
        },
        AddressSpace::Unknown => None,
    }
}

/// Best-effort reverse map: which area an inbound dump's address belongs to.
#[verifier::loop_isolation(false)]
pub fn area_for_address(address: [u8; 4]) -> (name: Option<String>)
    ensures
        match name {
            None => spec_area_name(address@) is None,
            Some(s) => spec_area_name(address@) == Some(s@),
        },
        address@ == SYSTEM_BASE@ ==> (name matches Some(s) && s@ == "system"@),
        address@ == EDIT_BUFFER_BASE@ ==> (name matches Some(s) && s@ == "edit"@),
        address@ == address::spec_slot_address(0) ==> (name matches Some(s) && s@ == "memory"@),
        forall|n: int|
            #[trigger] is_user_slot_at(n, address@) ==> (name matches Some(s) && s@ == "memory-"@
                + spec_decimal(n as nat)),
{
    proof {
        lemma_fixed_area_names();
        assert forall|n: int| #[trigger] is_user_slot_at(n, address@) implies spec_area_name(
            address@,
        ) == Some("memory-"@ + spec_decimal(n as nat)) by {
            lemma_user_slot_area_name(n as u8);
        }
    }
    match AddressSpace::classify(address) {
        AddressSpace::System => Some(String::from_str("system")),
        AddressSpace::Memory => {
            if same_address(address, EDIT_BUFFER_BASE) {
                return Some(String::from_str("edit"));
            }
            if same_address(address, MemorySlot::Manual.base_address()) {
                return Some(String::from_str("memory"));
            }
            let mut n: u8 = 1;
            while n <= MEMORY_SLOT_MAX
                invariant
                    1 <= n <= MEMORY_SLOT_MAX + 1,
                    forall|k: int| 1 <= k < n ==> !is_user_slot_at(k, address@),
                decreases MEMORY_SLOT_MAX + 1 - n,
            {
                if same_address(MemorySlot::User(n).base_address(), address) {
                    proof {
                        let c = choose|c: int| is_user_slot_at(c, address@);
                        assert(is_user_slot_at(n as int, address@));
                        assert(is_user_slot_at(c, address@));
                        if c != n {
                            address::lemma_slot_addresses_distinct(c as nat, n as nat);
                        }
                    }
                    let mut s = String::from_str("memory-");
                    let digits = decimal_string(n);
                    s.append(digits.as_str());
                    return Some(s);
                }
                n += 1;
            }
            None
        },
        AddressSpace::Unknown => None,
    }
}

// === wire helpers ===

/// The Roland device id for MIDI channel `ch` (`0x10 + ch`, wrapping).
pub open spec fn spec_device_id(ch: u8) -> u8 {
    ((0x10 + ch) % 256) as u8
}

/// Roland device id for a 0..=15 channel.
pub fn roland_device_id(ch: u8) -> (id: u8)
    ensures
        id == spec_device_id(ch),
{
    0x10u8.wrapping_add(ch)
}

/// Roland's 4-byte, 7-bit big-endian size field for a byte count (taken modulo 2^32).
pub open spec fn spec_size_field(n: usize) -> Seq<u8> {
    let v = (n as u32) as nat;
    seq![
        (v / 0x200000 % 128) as u8,
        (v / 0x4000 % 128) as u8,
        (v / 0x80 % 128) as u8,
        (v % 128) as u8,
    ]
}

/// Encode a byte count as Roland's 4-byte, 7-bit big-endian size field.
pub fn size_field(n: usize) -> (field: [u8; 4])
    ensures
        field@ == spec_size_field(n),
{
    let v = n as u32;
    assert(((v >> 21) & 0x7F) == v / 0x200000 % 128 && ((v >> 14) & 0x7F) == v / 0x4000 % 128
        && ((v >> 7) & 0x7F) == v / 0x80 % 128 && (v & 0x7F) == v % 128) by (bit_vector);
    let field = [
        ((v >> 21) & 0x7F) as u8,
        ((v >> 14) & 0x7F) as u8,
        ((v >> 7) & 0x7F) as u8,
        (v & 0x7F) as u8,
    ];
    assert(field@ =~= spec_size_field(n));
    field
}

/// Why a device-level operation could not be carried out.
#[derive(Debug, Clone, PartialEq, Eq)]
pub enum DeviceFailure {
    /// The area name is not one the device has.
    UnknownArea(String),
    /// No data-set frame at this address was found in a dump.
    NoDataSet([u8; 4]),
    /// The data block did not decode, or the document did not encode.
    Codec(CodecError),
}

/// `b` is a well-formed DT1 frame at address `expected`.
pub open spec fn is_block_at(b: Seq<u8>, expected: Seq<u8>) -> bool {
    &&& sysex::spec_decode_error(b) is None
    &&& b[8] == CMD_DT1
    &&& b.subrange(9, 13) == expected
}

/// The payload of the first frame in `frames` that is a data set at `expected`.
pub open spec fn spec_first_block(frames: Seq<Vec<u8>>, expected: Seq<u8>) -> Option<Seq<u8>>
    decreases frames.len(),
{
    if frames.len() == 0 {
        None
    } else if is_block_at(frames[0]@, expected) {
        Some(sysex::payload(frames[0]@))
    } else {
        spec_first_block(frames.drop_first(), expected)
    }
}

/// Find the data of the first DT1 (data-set) frame among `frames` at `expected`.
pub fn first_block_data(frames: &[Vec<u8>], expected: [u8; 4]) -> (r: Result<
    Vec<u8>,
    DeviceFailure,
>)
    ensures
        match spec_first_block(frames@, expected@) {
            Some(d) => r matches Ok(v) && v@ == d,
            None => r == Err::<Vec<u8>, DeviceFailure>(DeviceFailure::NoDataSet(expected)),
        },
{
    let mut i: usize = 0;
    assert(frames@.skip(0) =~= frames@);
    while i < frames.len()
        invariant
            0 <= i <= frames@.len(),
            spec_first_block(frames@, expected@) == spec_first_block(frames@.skip(i as int), expected@),
        decreases frames@.len() - i,
    {
        let ghost rest = frames@.skip(i as int);
        assert(rest[0] == frames@[i as int]);
        assert(rest.drop_first() =~= frames@.skip(i + 1));
        match Frame::decode(frames[i].as_slice()) {
            Ok(f) => {
                if f.command == CMD_DT1 && same_address(f.address, expected) {
                    return Ok(f.data);
                }
            },
            Err(_) => {},
        }
        i += 1;
    }
    assert(frames@.skip(i as int).len() == 0);
    Err(DeviceFailure::NoDataSet(expected))
}

// === the device ===

/// The BOSS RE-202 Space Echo.
pub struct Re202;

/// A decoded area document: the System area or one memory block.
#[derive(Debug, Clone, PartialEq, Eq)]
pub enum AreaDocument {
    System(SystemArea),
    Memory(Memory),
}

/// What an inbound message means at device level.
#[derive(Debug, Clone, PartialEq, Eq)]
pub enum DeviceInbound {
    /// A Universal Identity Reply; `model` is `Some("RE-202")` when the family matches.
    Identity { bytes: Vec<u8>, model: Option<String> },
    /// A data set (dump) at `address`, with the area it belongs to where known.
    Dump { area: Option<String>, address: Vec<u8>, data: Vec<u8> },
    /// A data request at `address`.
    Request { address: Vec<u8> },
    /// Anything else, verbatim.
    Other(Vec<u8>),
}

/// The block length an area's request asks for.
pub open spec fn spec_area_len(area: Seq<char>) -> usize {
    if area == "system"@ {
        SYSTEM_AREA_LEN
    } else {
        MEMORY_BLOCK_LEN
    }
}

/// `b` is a Universal Identity Reply (`F0 7E <dev> 06 02 ...`).
pub open spec fn is_identity_reply(b: Seq<u8>) -> bool {
    b.len() >= 6 && b[0] == 0xF0 && b[1] == 0x7E && b[3] == 0x06 && b[4] == 0x02
}

/// The identity reply carries Roland's manufacturer id and the RE-202 family code `18 04`.
pub open spec fn is_re202_identity(b: Seq<u8>) -> bool {
    b.len() >= 8 && b[5] == 0x41 && b[6] == 0x18 && b[7] == 0x04
}

/// Detect a Universal Identity Reply. `None` when `bytes` is not one; otherwise
/// `Some(Some("RE-202"))` when the Roland family bytes match, else `Some(None)`.
pub fn classify_identity(bytes: &[u8]) -> (r: Option<Option<String>>)
    ensures
        match r {
            None => !is_identity_reply(bytes@),
            Some(None) => is_identity_reply(bytes@) && !is_re202_identity(bytes@),
            Some(Some(model)) => is_identity_reply(bytes@) && is_re202_identity(bytes@)
                && model@ == "RE-202"@,
        },
{
    let is_identity_reply = bytes.len() >= 6 && bytes[0] == 0xF0 && bytes[1] == 0x7E && bytes[3]
        == 0x06 && bytes[4] == 0x02;
    if !is_identity_reply {
        return None;
    }
    let is_re202 = bytes.len() >= 8 && bytes[5] == 0x41 && bytes[6] == 0x18 && bytes[7] == 0x04;
    if is_re202 {
        Some(Some(String::from_str("RE-202")))
    } else {
        Some(None)
    }
}

/// `r` is the device-level meaning of the inbound bytes `b`: an identity reply first;
/// otherwise a data-set frame is a dump named by its address, a data request a request,
/// and anything else is passed on verbatim.
pub open spec fn is_device_inbound_of(r: DeviceInbound, b: Seq<u8>) -> bool {
    if is_identity_reply(b) {
        &&& r matches DeviceInbound::Identity { bytes, model }
        &&& bytes@ == b
        &&& (model is Some <==> is_re202_identity(b))
        &&& (model matches Some(m) ==> m@ == "RE-202"@)
    } else if b.len() == 0 || b[0] != sysex::SYSEX_START || sysex::spec_decode_error(b) is Some {
        r matches DeviceInbound::Other(v) && v@ == b
    } else if b[8] == CMD_DT1 {
        &&& r matches DeviceInbound::Dump { area, address, data }
        &&& address@ == b.subrange(9, 13)
        &&& data@ == sysex::payload(b)
        &&& match area {
            None => spec_area_name(b.subrange(9, 13)) is None,
            Some(name) => spec_area_name(b.subrange(9, 13)) == Some(name@),
        }
    } else {
        r matches DeviceInbound::Request { address } && address@ == b.subrange(9, 13)
    }
}

impl Re202 {
    /// The data-request frame that reads `area` from the device on channel `ch`.
    pub fn request(area: &str, ch: u8) -> (r: Result<Vec<u8>, DeviceFailure>)
        ensures
            match spec_area_address(area@) {
                None => r matches Err(DeviceFailure::UnknownArea(s)) && s@ == area@,
                Some(addr) => r matches Ok(v) && v@ == sysex::encode_parts(
                    spec_device_id(ch),
                    CMD_RQ1,
                    addr,
                    spec_size_field(spec_area_len(area@)),
                ),
            },
    {
        let device_id = roland_device_id(ch);
        let (address, len) = match target_for(area) {
            None => return Err(DeviceFailure::UnknownArea(String::from_str(area))),
            Some(Target::System) => (SYSTEM_BASE, SYSTEM_AREA_LEN),
            Some(Target::Memory(addr)) => (addr, MEMORY_BLOCK_LEN),
        };
        Ok(Frame::data_request(device_id, address, size_field(len)).encode())
    }

    /// Read `area` out of a dump, given as the SysEx frames it splits into: the first
    /// data-set frame at the area's address, decoded as the area's document.
    pub fn decode(area: &str, frames: &[Vec<u8>]) -> (r: Result<AreaDocument, DeviceFailure>)
        ensures
            match spec_area_address(area@) {
                None => r matches Err(DeviceFailure::UnknownArea(s)) && s@ == area@,
                Some(addr) => match spec_first_block(frames@, addr) {
                    None => r matches Err(DeviceFailure::NoDataSet(a)) && a@ == addr,
                    Some(data) => if area@ == "system"@ {
                        match system::spec_system_from_bytes(data) {
                            Ok(v) => r == Ok::<AreaDocument, DeviceFailure>(AreaDocument::System(v)),
                            Err(e) => r == Err::<AreaDocument, DeviceFailure>(
                                DeviceFailure::Codec(e),
                            ),
                        }
                    } else {
                        match memory::spec_memory_from_bytes(data) {
                            Ok(v) => r == Ok::<AreaDocument, DeviceFailure>(AreaDocument::Memory(v)),
                            Err(e) => r == Err::<AreaDocument, DeviceFailure>(
                                DeviceFailure::Codec(e),
                            ),
                        }
                    },
                },
            },
    {
        match target_for(area) {
            None => Err(DeviceFailure::UnknownArea(String::from_str(area))),
            Some(Target::System) => {
                let data = first_block_data(frames, SYSTEM_BASE)?;
                match SystemArea::from_bytes(data.as_slice()) {
                    Ok(v) => Ok(AreaDocument::System(v)),
                    Err(e) => Err(DeviceFailure::Codec(e)),
                }
            },
            Some(Target::Memory(addr)) => {
                let data = first_block_data(frames, addr)?;
                match Memory::from_bytes(data.as_slice()) {
                    Ok(v) => Ok(AreaDocument::Memory(v)),
                    Err(e) => Err(DeviceFailure::Codec(e)),
                }
            },
        }
    }

    /// The data-set frame that writes a System area to the device on channel `ch`.
    pub fn encode_system(system: &SystemArea, ch: u8) -> (r: Result<Vec<u8>, CodecError>)
        ensures
            match system::spec_system_to_bytes(*system) {
                Ok(b) => r matches Ok(v) && v@ == sysex::encode_parts(
                    spec_device_id(ch),
                    CMD_DT1,
                    SYSTEM_BASE@,
                    b,
                ),
                Err(e) => r == Err::<Vec<u8>, CodecError>(e),
            },
    {
        let device_id = roland_device_id(ch);
        let bytes = system.to_bytes()?;
        Ok(
            Frame::data_set(
                device_id,
                SYSTEM_BASE,
                vstd::slice::slice_to_vec(bytes.as_slice()),
            ).encode(),
        )
    }

    /// The data-set frame that writes a memory block at `address` on channel `ch`.
    pub fn encode_memory(address: [u8; 4], memory: &Memory, ch: u8) -> (r: Result<
        Vec<u8>,
        CodecError,
    >)
        ensures
            match memory::spec_memory_to_bytes(*memory) {
                Ok(b) => r matches Ok(v) && v@ == sysex::encode_parts(
                    spec_device_id(ch),
                    CMD_DT1,
                    address@,
                    b,
                ),
                Err(e) => r == Err::<Vec<u8>, CodecError>(e),
            },
    {
        let device_id = roland_device_id(ch);
        let bytes = memory.to_bytes()?;
        Ok(Frame::data_set(device_id, address, vstd::slice::slice_to_vec(bytes.as_slice())).encode())
    }

    /// Classify an inbound message at device level.
    pub fn classify_inbound(bytes: &[u8]) -> (r: DeviceInbound)
        ensures
            is_device_inbound_of(r, bytes@),
    {
        if let Some(model) = classify_identity(bytes) {
            return DeviceInbound::Identity { bytes: vstd::slice::slice_to_vec(bytes), model };
        }
        let m = core_classify_inbound(bytes);
        proof {
            if bytes@.len() > 0 && bytes@[0] == sysex::SYSEX_START && sysex::spec_decode_error(bytes@) is None {
                assert(address::spec_classify(bytes@[9]) == address::spec_classify(bytes@.subrange(9, 13)[0]));
            }
        }
        match m {
            InboundMessage::SystemDataSet { address, data, .. } => DeviceInbound::Dump {
                area: area_for_address(address),
                address: vstd::slice::slice_to_vec(address.as_slice()),
                data,
            },
            InboundMessage::MemoryDataSet { address, data, .. } => DeviceInbound::Dump {
                area: area_for_address(address),
                address: vstd::slice::slice_to_vec(address.as_slice()),
                data,
            },
            InboundMessage::UnknownDataSet { address, data, .. } => DeviceInbound::Dump {
                area: area_for_address(address),
                address: vstd::slice::slice_to_vec(address.as_slice()),
                data,
            },
            InboundMessage::DataRequest { address, .. } => DeviceInbound::Request {
                address: vstd::slice::slice_to_vec(address.as_slice()),
            },
            InboundMessage::UnparseableSysEx { bytes, .. } => DeviceInbound::Other(bytes),
            InboundMessage::NonSysEx(bytes) => DeviceInbound::Other(bytes),
        }
    }
}

// === areas table ===

/// One addressable area: its canonical name, a short label and a description.
#[derive(Debug, Clone, PartialEq, Eq)]
pub struct AreaInfo {
    pub name: String,
    pub label: &'static str,
    pub about: &'static str,
}

/// The area table: `system`, `memory` (= MANUAL), `edit`, then one entry per user slot
/// `memory-1` … `memory-127`.
pub fn build_areas() -> (v: Vec<AreaInfo>)
    ensures
        v@.len() == 3 + MEMORY_SLOT_MAX,
        v@[0].name@ == "system"@,
        v@[0].label == "System area",
        v@[0].about == "Global settings (input, controls, MIDI, reverb type) — 18 bytes",
        v@[1].name@ == "memory"@,
        v@[1].label == "Memory block",
        v@[1].about == "MEMORY MANUAL — the live manual-mode patch (33 bytes)",
        v@[2].name@ == "edit"@,
        v@[2].label == "Memory block",
        v@[2].about == "Edit-buffer mirror of the currently-active memory (33 bytes)",
        forall|n: int|
            1 <= n <= MEMORY_SLOT_MAX ==> {
                &&& (#[trigger] v@[2 + n]).name@ == "memory-"@ + spec_decimal(n as nat)
                &&& v@[2 + n].label == "Memory block"
                &&& v@[2 + n].about == "One stored user memory slot (33 bytes)"
            },
{
    let mut v: Vec<AreaInfo> = Vec::new();
    v.push(
        AreaInfo {
            name: String::from_str("system"),
            label: "System area",
            about: "Global settings (input, controls, MIDI, reverb type) — 18 bytes",
        },
    );
    v.push(
        AreaInfo {
            name: String::from_str("memory"),
            label: "Memory block",
            about: "MEMORY MANUAL — the live manual-mode patch (33 bytes)",
        },
    );
    v.push(
        AreaInfo {
            name: String::from_str("edit"),
            label: "Memory block",
            about: "Edit-buffer mirror of the currently-active memory (33 bytes)",
        },
    );
    let mut n: u8 = 1;
    while n <= MEMORY_SLOT_MAX
        invariant
            1 <= n <= MEMORY_SLOT_MAX + 1,
            v@.len() == 2 + n,
            v@[0].name@ == "system"@,
            v@[0].label == "System area",
            v@[0].about == "Global settings (input, controls, MIDI, reverb type) — 18 bytes",
            v@[1].name@ == "memory"@,
            v@[1].label == "Memory block",
            v@[1].about == "MEMORY MANUAL — the live manual-mode patch (33 bytes)",
            v@[2].name@ == "edit"@,
            v@[2].label == "Memory block",
            v@[2].about == "Edit-buffer mirror of the currently-active memory (33 bytes)",
            forall|k: int|
                1 <= k < n ==> {
                    &&& (#[trigger] v@[2 + k]).name@ == "memory-"@ + spec_decimal(k as nat)
                    &&& v@[2 + k].label == "Memory block"
                    &&& v@[2 + k].about == "One stored user memory slot (33 bytes)"
                },
        decreases MEMORY_SLOT_MAX + 1 - n,
    {
        let mut name = String::from_str("memory-");
        let digits = decimal_string(n);
        name.append(digits.as_str());
        v.push(AreaInfo { name, label: "Memory block", about: "One stored user memory slot (33 bytes)" });
        n += 1;
    }
    v
}

// === laws ===

/// Each decimal digit's character is a digit, reads back as that digit, and is not `+`.
proof fn lemma_digit_char(d: nat)
    requires
        d < 10,
    ensures
        is_digit(digit_char(d)),
        digit_value(digit_char(d)) == d,
        digit_char(d) != '+',
{
}

/// The decimal text of `n` is a non-empty string of digits whose value is `n`.
pub proof fn lemma_decimal_reads_back(n: nat)
    ensures
        spec_decimal(n).len() >= 1,
        all_digits(spec_decimal(n)),
        decimal_value(spec_decimal(n)) == n,
        spec_decimal(n)[0] != '+',
    decreases n,
{
    if n < 10 {
        lemma_digit_char(n);
        let s = spec_decimal(n);
        assert(s.drop_last() =~= Seq::<char>::empty());
        assert(decimal_value(s) == decimal_value(s.drop_last()) * 10 + digit_value(s.last()));
    } else {
        lemma_decimal_reads_back(n / 10);
        lemma_digit_char(n % 10);
        let p = spec_decimal(n / 10);
        let s = spec_decimal(n);
        assert(s == p.push(digit_char(n % 10)));
        assert(s.drop_last() =~= p);
        assert(decimal_value(s) == decimal_value(p) * 10 + digit_value(digit_char(n % 10)));
        assert((n / 10) * 10 + n % 10 == n);
        assert forall|i: int| 0 <= i < s.len() implies is_digit(#[trigger] s[i]) by {
            if i < p.len() {
                assert(s[i] == p[i]);
            }
        }
    }
}

/// Formatting a slot number and parsing it back gives the same number.
pub proof fn lemma_parse_decimal(n: u8)
    ensures
        spec_parse_u8(spec_decimal(n as nat)) == Some(n),
{
    lemma_decimal_reads_back(n as nat);
    assert(digits_part(spec_decimal(n as nat)) == spec_decimal(n as nat));
}

/// The name of user slot `n` (`memory-N`) targets that slot's base address.
pub proof fn lemma_user_area_name(n: u8)
    requires
        1 <= n <= MEMORY_SLOT_MAX,
    ensures
        spec_user_slot_of_name("memory-"@ + spec_decimal(n as nat)) == Some(n),
        spec_area_address("memory-"@ + spec_decimal(n as nat)) == Some(
            address::spec_slot_address(n as nat),
        ),
{
    reveal_strlit("memory-");
    reveal_strlit("system");
    reveal_strlit("memory");
    reveal_strlit("edit");
    let d = spec_decimal(n as nat);
    let name = "memory-"@ + d;
    lemma_decimal_reads_back(n as nat);
    lemma_parse_decimal(n);
    assert(name.len() >= 8);
    assert(name.take(7) =~= "memory-"@);
    assert(name.skip(7) =~= d);
    assert(name != "system"@);
    assert(name != "memory"@);
    assert(name != "edit"@);
}

/// The system base, the edit buffer and MANUAL are named `system`, `edit` and `memory`.
pub proof fn lemma_fixed_area_names()
    ensures
        spec_area_name(SYSTEM_BASE@) == Some("system"@),
        spec_area_name(EDIT_BUFFER_BASE@) == Some("edit"@),
        spec_area_name(address::spec_slot_address(0)) == Some("memory"@),
{
    address::lemma_slot_address_in_memory_space(0);
}

/// Every user slot's base address is named `memory-N` after its slot number, the name
/// that resolves back to that slot.
pub proof fn lemma_user_slot_area_name(n: u8)
    requires
        1 <= n <= MEMORY_SLOT_MAX,
    ensures
        spec_area_name(address::spec_slot_address(n as nat)) == Some(
            "memory-"@ + spec_decimal(n as nat),
        ),
{
    let a = address::spec_slot_address(n as nat);
    address::lemma_slot_address_in_memory_space(n as nat);
    address::lemma_slot_addresses_distinct(0, n as nat);
    assert(is_user_slot_at(n as int, a));
    let c = choose|c: int| is_user_slot_at(c, a);
    assert(is_user_slot_at(c, a));
    if c != n {
        address::lemma_slot_addresses_distinct(c as nat, n as nat);
    }
}

/// The area a memory-space address is attributed to targets that same address: naming an
/// inbound dump and resolving the name agree.
pub proof fn lemma_area_name_targets_address(a: Seq<u8>)
    requires
        address::spec_classify(a[0]) == AddressSpace::Memory,
        spec_area_name(a) is Some,
    ensures
        spec_area_address(spec_area_name(a)->0) == Some(a),
{
    reveal_strlit("system");
    reveal_strlit("memory");
    reveal_strlit("edit");
    assert("edit"@.len() == 4 && "system"@.len() == 6 && "memory"@.len() == 6);
    assert("memory"@[0] != "system"@[0]);
    assert("edit"@ != "system"@ && "edit"@ != "memory"@);
    assert("memory"@ != "system"@);
    if a != EDIT_BUFFER_BASE@ && a != address::spec_slot_address(0) {
        let n = choose|n: int| is_user_slot_at(n, a);
        lemma_user_area_name(n as u8);
    }
}

/// Every name in the area table resolves to a target.
pub proof fn lemma_area_table_names_resolve(n: u8)
    requires
        1 <= n <= MEMORY_SLOT_MAX,
    ensures
        spec_area_address("system"@) is Some,
        spec_area_address("memory"@) is Some,
        spec_area_address("edit"@) is Some,
        spec_area_address("memory-"@ + spec_decimal(n as nat)) is Some,
{
    lemma_user_area_name(n);
}

/// The device id of every channel the engine uses (0..=15) is `0x10` plus the channel, a
/// valid RE-202 device id.
pub proof fn lemma_device_id_valid(ch: u8)
    requires
        ch <= 15,
    ensures
        spec_device_id(ch) == 0x10 + ch,
        0x10 <= spec_device_id(ch) <= 0x1F,
{
}

/// A memory document written to an area and read back from a dump that starts with the
/// written frame is the same document, for every memory area (MANUAL, the edit buffer and
/// each user slot).
#[verifier::spinoff_prover]
pub proof fn lemma_memory_document_round_trip(
    area: Seq<char>,
    m: Memory,
    ch: u8,
    frames: Seq<Vec<u8>>,
)
    requires
        spec_area_address(area) is Some,
        area != "system"@,
        ch <= 15,
        memory::spec_memory_to_bytes(m) is Ok,
        frames.len() >= 1,
        frames[0]@ == sysex::encode_parts(
            spec_device_id(ch),
            CMD_DT1,
            spec_area_address(area)->0,
            memory::spec_memory_to_bytes(m)->Ok_0,
        ),
    ensures
        spec_first_block(frames, spec_area_address(area)->0) == Some(
            memory::spec_memory_to_bytes(m)->Ok_0,
        ),
        memory::spec_memory_from_bytes(memory::spec_memory_to_bytes(m)->Ok_0) == Ok::<
            Memory,
            CodecError,
        >(m),
{
    let addr = spec_area_address(area)->0;
    let bytes = memory::spec_memory_to_bytes(m)->Ok_0;
    assert(addr.len() == 4);
    memory::lemma_memory_bytes_7bit(m);
    assert(bytes == memory::spec_memory_bytes(m));
    sysex::lemma_decode_inverts_encode_parts(spec_device_id(ch), CMD_DT1, addr, bytes);
    assert(is_block_at(frames[0]@, addr));
    memory::lemma_memory_value_round_trip(m);
}

/// A well-formed System document written to the device and read back from a dump that
/// starts with the written frame is the same document.
pub proof fn lemma_system_document_round_trip(v: SystemArea, ch: u8, frames: Seq<Vec<u8>>)
    requires
        v.wf(),
        ch <= 15,
        frames.len() >= 1,
        frames[0]@ == sysex::encode_parts(
            spec_device_id(ch),
            CMD_DT1,
            SYSTEM_BASE@,
            system::spec_system_bytes(v),
        ),
    ensures
        spec_area_address("system"@) == Some(SYSTEM_BASE@),
        spec_first_block(frames, SYSTEM_BASE@) == Some(system::spec_system_bytes(v)),
        system::spec_system_from_bytes(system::spec_system_bytes(v)) == Ok::<
            SystemArea,
            CodecError,
        >(v),
{
    system::lemma_system_bytes_7bit(v);
    sysex::lemma_decode_inverts_encode_parts(
        spec_device_id(ch),
        CMD_DT1,
        SYSTEM_BASE@,
        system::spec_system_bytes(v),
    );
    assert(is_block_at(frames[0]@, SYSTEM_BASE@));
    system::lemma_system_value_round_trip(v);
}

/// A request asks for the whole block of its area, by the kind of its target: the System
/// area's 18 bytes (size field `00 00 00 12`) for the area at the System base, and a
/// memory block's 33 bytes (size field `00 00 00 21`) for every memory-space area —
/// MANUAL, the edit buffer and each user slot alike. Every area's target is one of the two.
pub proof fn lemma_request_size_follows_target(area: Seq<char>)
    requires
        spec_area_address(area) is Some,
    ensures
        ({
            let a = spec_area_address(area)->0;
            let size = spec_size_field(spec_area_len(area));
            &&& a == SYSTEM_BASE@ || address::spec_classify(a[0]) == AddressSpace::Memory
            &&& a == SYSTEM_BASE@ ==> size == seq![0u8, 0u8, 0u8, 0x12u8]
            &&& address::spec_classify(a[0]) == AddressSpace::Memory ==> size == seq![
                0u8,
                0u8,
                0u8,
                0x21u8,
            ]
        }),
{
    let a = spec_area_address(area)->0;
    let size = spec_size_field(spec_area_len(area));
    if area == "system"@ {
        assert(size =~= seq![0u8, 0u8, 0u8, 0x12u8]);
    } else {
        assert(size =~= seq![0u8, 0u8, 0u8, 0x21u8]);
        if area == "memory"@ {
            address::lemma_slot_address_in_memory_space(0);
        } else if area == "edit"@ {
        } else {
            let n = spec_user_slot_of_name(area)->0;
            address::lemma_slot_address_in_memory_space(n as nat);
        }
        assert(a != SYSTEM_BASE@) by {
            assert(SYSTEM_BASE@[0] == 0x10);
        }
    }
}

} // verus!
