//! Roland SysEx framing for the RE-202.
//!
//! Frame layout (DT1, write):
//!
//! ```text
//! F0 41 [dev] 00 00 00 00 18 12 [a a a a] [d d d ...] [chk] F7
//! ```
//!
//! The checksum is the Roland standard `(128 - ((sum of addr + data) mod 128)) mod 128`,
//! taken over the address and data bytes only.
use vstd::prelude::*;

verus! {

pub const SYSEX_START: u8 = 0xF0;

pub const SYSEX_END: u8 = 0xF7;

pub const ROLAND_ID: u8 = 0x41;

/// 5-byte Roland model ID for the RE-202.
pub const RE202_MODEL_ID: [u8; 5] = [0x00, 0x00, 0x00, 0x00, 0x18];

/// Data Set 1: write data to the device.
pub const CMD_DT1: u8 = 0x12;

/// Data Request 1: ask the device to send data back.
pub const CMD_RQ1: u8 = 0x11;

/// Minimum frame length: F0 41 dev 00 00 00 00 18 cmd a a a a chk F7.
pub const MIN_FRAME_LEN: usize = 15;

/// Why a byte sequence is not an RE-202 Roland frame.
#[derive(Debug, Clone, Copy, PartialEq, Eq, Structural)]
pub enum SysExError {
    TooShort(usize),
    MissingStart,
    MissingEnd,
    NotRoland(u8),
    InvalidDeviceId(u8),
    WrongModel,
    UnknownCommand(u8),
    ChecksumMismatch { expected: u8, actual: u8 },
    DataByteOutOfRange(usize),
}

/// Sum of a byte sequence, as a natural number.
pub open spec fn byte_sum(s: Seq<u8>) -> nat
    decreases s.len(),
{
    if s.len() == 0 {
        0
    } else {
        byte_sum(s.drop_last()) + s.last() as nat
    }
}

/// The Roland checksum of an address + data section.
pub open spec fn spec_checksum(s: Seq<u8>) -> u8 {
    ((128 - (byte_sum(s) % 128)) % 128) as u8
}

/// Append `src` to `out`.
fn append_bytes(out: &mut Vec<u8>, src: &[u8])
    ensures
        final(out)@ == old(out)@ + src@,
{
    let mut i: usize = 0;
    while i < src.len()
        invariant
            0 <= i <= src@.len(),
            out@ == old(out)@ + src@.take(i as int),
        decreases src@.len() - i,
    {
        out.push(src[i]);
        i += 1;
        assert(src@.take(i as int) == src@.take(i - 1).push(src@[i - 1]));
    }
    assert(src@.take(i as int) == src@);
}

/// Compute the Roland SysEx checksum over the address + data section.
pub fn checksum(addr_and_data: &[u8]) -> (sum: u8)
    ensures
        sum == spec_checksum(addr_and_data@),
        sum < 128,
{
    let mut acc: u32 = 0;
    let mut i: usize = 0;
    while i < addr_and_data.len()
        invariant
            0 <= i <= addr_and_data@.len(),
            acc < 128,
            acc == byte_sum(addr_and_data@.take(i as int)) % 128,
        decreases addr_and_data@.len() - i,
    {
        let ghost prefix = addr_and_data@.take(i as int);
        assert(addr_and_data@.take(i + 1).drop_last() == prefix);
        proof {
            vstd::arithmetic::div_mod::lemma_add_mod_noop_right(
                addr_and_data@[i as int] as int,
                byte_sum(prefix) as int,
                128,
            );
        }
        acc = (acc + addr_and_data[i] as u32) % 128;
        i += 1;
    }
    assert(addr_and_data@.take(i as int) == addr_and_data@);
    ((128 - acc) % 128) as u8
}

/// The bytes of a frame with the given parts.
pub open spec fn encode_parts(device_id: u8, command: u8, address: Seq<u8>, data: Seq<u8>) -> Seq<
    u8,
> {
    seq![SYSEX_START, ROLAND_ID, device_id] + RE202_MODEL_ID@ + seq![command] + address + data
        + seq![spec_checksum(address + data), SYSEX_END]
}

/// The payload of a candidate frame: everything between the address and the checksum.
pub open spec fn payload(b: Seq<u8>) -> Seq<u8> {
    b.subrange(13, b.len() - 2)
}

/// Every byte of `s` is 7-bit clean (below `0x80`).
pub open spec fn is_7bit(s: Seq<u8>) -> bool {
    forall|i: int| 0 <= i < s.len() ==> #[trigger] s[i] < 0x80
}

/// Joining 7-bit clean sequences gives a 7-bit clean sequence.
pub proof fn lemma_7bit_concat(a: Seq<u8>, b: Seq<u8>)
    requires
        is_7bit(a),
        is_7bit(b),
    ensures
        is_7bit(a + b),
{
    assert forall|i: int| 0 <= i < (a + b).len() implies #[trigger] (a + b)[i] < 0x80 by {
        if i < a.len() {
            assert((a + b)[i] == a[i]);
        } else {
            assert((a + b)[i] == b[i - a.len()]);
        }
    }
}

/// `i` is the index of the first byte of `s` that is not 7-bit clean.
pub open spec fn is_first_high(s: Seq<u8>, i: int) -> bool {
    &&& 0 <= i < s.len()
    &&& s[i] >= 0x80
    &&& forall|j: int| 0 <= j < i ==> s[j] < 0x80
}

/// The first reason, in the order the decoder checks them, why `b` is not a valid frame;
/// `None` when `b` is a valid RE-202 frame.
pub open spec fn spec_decode_error(b: Seq<u8>) -> Option<SysExError> {
    if b.len() < 15 {
        Some(SysExError::TooShort(b.len() as usize))
    } else if b[0] != SYSEX_START {
        Some(SysExError::MissingStart)
    } else if b.last() != SYSEX_END {
        Some(SysExError::MissingEnd)
    } else if b[1] != ROLAND_ID {
        Some(SysExError::NotRoland(b[1]))
    } else if !(0x10 <= b[2] <= 0x1F) {
        Some(SysExError::InvalidDeviceId(b[2]))
    } else if b.subrange(3, 8) != RE202_MODEL_ID@ {
        Some(SysExError::WrongModel)
    } else if b[8] != CMD_DT1 && b[8] != CMD_RQ1 {
        Some(SysExError::UnknownCommand(b[8]))
    } else if exists|i: int| is_first_high(payload(b), i) {
        Some(
            SysExError::DataByteOutOfRange(
                (choose|i: int| is_first_high(payload(b), i)) as usize,
            ),
        )
    } else if b[b.len() - 2] != spec_checksum(b.subrange(9, 13) + payload(b)) {
        Some(
            SysExError::ChecksumMismatch {
                expected: b[b.len() - 2],
                actual: spec_checksum(b.subrange(9, 13) + payload(b)),
            },
        )
    } else {
        None
    }
}

/// A decoded Roland SysEx frame addressed to / from the RE-202.
///
/// `data` is the raw payload between the address and the checksum: for RQ1 frames
/// a 4-byte size, for DT1 frames the values being written.
#[derive(Debug, Clone, PartialEq, Eq)]
pub struct Frame {
    pub device_id: u8,
    pub command: u8,
    pub address: [u8; 4],
    pub data: Vec<u8>,
}

impl Frame {
    /// The bytes `encode` produces for this frame.
    pub open spec fn spec_encode(&self) -> Seq<u8> {
        encode_parts(self.device_id, self.command, self.address@, self.data@)
    }

    /// A frame that `decode` accepts back once encoded.
    pub open spec fn wf(&self) -> bool {
        &&& 0x10 <= self.device_id <= 0x1F
        &&& (self.command == CMD_DT1 || self.command == CMD_RQ1)
        &&& is_7bit(self.data@)
    }

    pub fn data_set(device_id: u8, address: [u8; 4], data: Vec<u8>) -> (f: Self)
        ensures
            f.device_id == device_id,
            f.command == CMD_DT1,
            f.address == address,
            f.data@ == data@,
    {
        Self { device_id, command: CMD_DT1, address, data }
    }

    /// Request `size` bytes from the device starting at `address`.
    /// RQ1's data payload is a 4-byte big-endian (7-bit safe) size.
    pub fn data_request(device_id: u8, address: [u8; 4], size: [u8; 4]) -> (f: Self)
        ensures
            f.device_id == device_id,
            f.command == CMD_RQ1,
            f.address == address,
            f.data@ == size@,
    {
        let data = vec![size[0], size[1], size[2], size[3]];
        assert(data@ == size@);
        Self { device_id, command: CMD_RQ1, address, data }
    }

    pub fn encode(&self) -> (bytes: Vec<u8>)
        ensures
            bytes@ == self.spec_encode(),
    {
        let mut buf: Vec<u8> = Vec::new();
        buf.push(SYSEX_START);
        buf.push(ROLAND_ID);
        buf.push(self.device_id);
        append_bytes(&mut buf, RE202_MODEL_ID.as_slice());
        buf.push(self.command);
        append_bytes(&mut buf, self.address.as_slice());
        append_bytes(&mut buf, self.data.as_slice());

        let mut cksum_input: Vec<u8> = Vec::new();
        append_bytes(&mut cksum_input, self.address.as_slice());
        append_bytes(&mut cksum_input, self.data.as_slice());
        assert(cksum_input@ == self.address@ + self.data@);
        buf.push(checksum(cksum_input.as_slice()));
        buf.push(SYSEX_END);
        assert(buf@ =~= self.spec_encode());
        buf
    }

    #[verifier::loop_isolation(false)]
    pub fn decode(bytes: &[u8]) -> (res: Result<Self, SysExError>)
        ensures
            match res {
                Ok(f) => {
                    &&& spec_decode_error(bytes@) is None
                    &&& f.device_id == bytes@[2]
                    &&& f.command == bytes@[8]
                    &&& f.address@ == bytes@.subrange(9, 13)
                    &&& f.data@ == payload(bytes@)
                },
                Err(e) => spec_decode_error(bytes@) == Some(e),
            },
    {
        let n = bytes.len();
        if n < MIN_FRAME_LEN {
            return Err(SysExError::TooShort(n));
        }
        if bytes[0] != SYSEX_START {
            return Err(SysExError::MissingStart);
        }
        if bytes[n - 1] != SYSEX_END {
            return Err(SysExError::MissingEnd);
        }
        if bytes[1] != ROLAND_ID {
            return Err(SysExError::NotRoland(bytes[1]));
        }
        let device_id = bytes[2];
        if !(0x10 <= device_id && device_id <= 0x1F) {
            return Err(SysExError::InvalidDeviceId(device_id));
        }
        if bytes[3] != RE202_MODEL_ID[0] || bytes[4] != RE202_MODEL_ID[1] || bytes[5]
            != RE202_MODEL_ID[2] || bytes[6] != RE202_MODEL_ID[3] || bytes[7] != RE202_MODEL_ID[4] {
            proof {
                let m = bytes@.subrange(3, 8);
                if m == RE202_MODEL_ID@ {
                    assert(m[0] == bytes@[3] && m[1] == bytes@[4] && m[2] == bytes@[5] && m[3]
                        == bytes@[6] && m[4] == bytes@[7]);
                }
            }
            return Err(SysExError::WrongModel);
        }
        assert(bytes@.subrange(3, 8) =~= RE202_MODEL_ID@);
        let command = bytes[8];
        if command != CMD_DT1 && command != CMD_RQ1 {
            return Err(SysExError::UnknownCommand(command));
        }
        let address: [u8; 4] = [bytes[9], bytes[10], bytes[11], bytes[12]];
        assert(address@ =~= bytes@.subrange(9, 13));

        let payload_end = n - 2;
        let mut data: Vec<u8> = Vec::new();
        let mut k: usize = 13;
        while k < payload_end
            invariant
                n == bytes@.len(),
                payload_end == n - 2,
                13 <= k <= payload_end,
                data@ == bytes@.subrange(13, k as int),
            decreases payload_end - k,
        {
            data.push(bytes[k]);
            k += 1;
            assert(data@ =~= bytes@.subrange(13, k as int));
        }
        assert(data@ == payload(bytes@));

        let mut i: usize = 0;
        while i < data.len()
            invariant
                0 <= i <= data@.len(),
                data@ == payload(bytes@),
                forall|j: int| 0 <= j < i ==> data@[j] < 0x80,
            decreases data@.len() - i,
        {
            if data[i] >= 0x80 {
                proof {
                    let s = payload(bytes@);
                    assert(is_first_high(s, i as int));
                    let c = choose|c: int| is_first_high(s, c);
                    assert(is_first_high(s, c));
                    if c < i {
                        assert(s[c] < 0x80);
                    } else if c > i {
                        assert(s[i as int] < 0x80);
                    }
                    assert(c == i);
                }
                return Err(SysExError::DataByteOutOfRange(i));
            }
            i += 1;
        }
        assert(!exists|j: int| is_first_high(payload(bytes@), j));

        let expected = bytes[payload_end];
        let mut cksum_input: Vec<u8> = Vec::new();
        append_bytes(&mut cksum_input, address.as_slice());
        append_bytes(&mut cksum_input, data.as_slice());
        let actual = checksum(cksum_input.as_slice());
        if expected != actual {
            return Err(SysExError::ChecksumMismatch { expected, actual });
        }
        Ok(Self { device_id, command, address, data })
    }
}

/// Decoding encoded parts gives back those parts, whenever the device id is a valid one,
/// the command is DT1 or RQ1 and the data is 7-bit clean.
pub proof fn lemma_decode_inverts_encode_parts(
    device_id: u8,
    command: u8,
    address: Seq<u8>,
    data: Seq<u8>,
)
    requires
        0x10 <= device_id <= 0x1F,
        command == CMD_DT1 || command == CMD_RQ1,
        address.len() == 4,
        is_7bit(data),
    ensures
        spec_decode_error(encode_parts(device_id, command, address, data)) is None,
        encode_parts(device_id, command, address, data)[2] == device_id,
        encode_parts(device_id, command, address, data)[8] == command,
        encode_parts(device_id, command, address, data).subrange(9, 13) == address,
        payload(encode_parts(device_id, command, address, data)) == data,
{
    let b = encode_parts(device_id, command, address, data);
    let n = data.len();
    assert(b.len() == 15 + n);
    assert(b.subrange(3, 8) =~= RE202_MODEL_ID@);
    assert(b.subrange(9, 13) =~= address);
    assert(payload(b) =~= data);
    assert(b[b.len() - 2] == spec_checksum(address + data));
    assert(!exists|i: int| is_first_high(payload(b), i));
}

/// Decoding an encoded well-formed frame gives back that frame's parts: every frame
/// that the codec itself produces is accepted, and unchanged, on the way back in.
pub proof fn lemma_decode_inverts_encode(f: Frame)
    requires
        f.wf(),
    ensures
        spec_decode_error(f.spec_encode()) is None,
        f.spec_encode()[2] == f.device_id,
        f.spec_encode()[8] == f.command,
        f.spec_encode().subrange(9, 13) == f.address@,
        payload(f.spec_encode()) == f.data@,
{
    lemma_decode_inverts_encode_parts(f.device_id, f.command, f.address@, f.data@);
}

/// Encoding the parts of an accepted byte sequence rebuilds exactly that sequence:
/// decoding loses nothing.
pub proof fn lemma_encode_inverts_decode(b: Seq<u8>)
    requires
        spec_decode_error(b) is None,
    ensures
        encode_parts(b[2], b[8], b.subrange(9, 13), payload(b)) == b,
{
    let e = encode_parts(b[2], b[8], b.subrange(9, 13), payload(b));
    let n = b.len();
    assert(e.len() == n);
    assert forall|i: int| 0 <= i < n implies e[i] == b[i] by {
        if 3 <= i < 8 {
            assert(b.subrange(3, 8)[i - 3] == b[i]);
        }
    }
    assert(e =~= b);
}

/// The checksum makes the address + data + checksum bytes sum to a multiple of 128.
pub proof fn lemma_checksum_balances(s: Seq<u8>)
    ensures
        (byte_sum(s) + spec_checksum(s)) % 128 == 0,
        spec_checksum(s) < 128,
{
}

} // verus!
