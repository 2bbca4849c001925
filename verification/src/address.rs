//! Parameter address map for the RE-202.
//!
//! | Prefix              | Area                 |
//! |---------------------|----------------------|
//! | `10 00 00 00`       | System (18 params)   |
//! | `20 10 00 00`       | Memory MANUAL        |
//! | `20 20 00 00`       | Memory 1             |
//! | `30 00 00 00`       | Memory 127           |
//!
//! Every address from `20 ..` through `30 ..` lies in the memory space.
//!
//! Memory stride between consecutive slots is `00 10 00 00` (with carry).
use vstd::prelude::*;

verus! {

/// Base address of the System area.
pub const SYSTEM_BASE: [u8; 4] = [0x10, 0x00, 0x00, 0x00];

/// Base address of MEMORY MANUAL (the live "manual mode" slot).
pub const MEMORY_MANUAL_BASE: [u8; 4] = [0x20, 0x10, 0x00, 0x00];

/// Base address of the edit-buffer mirror: a live, read/write mirror of the
/// currently-active memory's 33-byte block.
pub const EDIT_BUFFER_BASE: [u8; 4] = [0x20, 0x00, 0x00, 0x00];

/// Per-memory block size in bytes (offsets `00 00`..`00 20`, inclusive).
pub const MEMORY_BLOCK_LEN: usize = 33;

/// Highest user memory slot number.
pub const MEMORY_SLOT_MAX: u8 = 127;

/// Top-level partition of the RE-202 address space.
#[derive(Debug, Clone, Copy, PartialEq, Eq, Structural)]
pub enum AddressSpace {
    /// `10 xx xx xx` — global settings.
    System,
    /// `20 xx xx xx` through `30 xx xx xx` — the edit buffer, MANUAL and the 127 saved
    /// memory slots (whose base addresses carry from `20 ..` up to `30 00 00 00`).
    Memory,
    /// Anything not classified.
    Unknown,
}

/// The address space that an address whose first byte is `high` falls in.
pub open spec fn spec_classify(high: u8) -> AddressSpace {
    if high == 0x10 {
        AddressSpace::System
    } else if 0x20 <= high <= 0x30 {
        AddressSpace::Memory
    } else {
        AddressSpace::Unknown
    }
}

impl AddressSpace {
    pub fn classify(address: [u8; 4]) -> (space: AddressSpace)
        ensures
            space == spec_classify(address@[0]),
    {
        match address[0] {
            0x10 => AddressSpace::System,
            0x20..=0x30 => AddressSpace::Memory,
            _ => AddressSpace::Unknown,
        }
    }
}

/// Identifies a memory slot: MANUAL (the live patch) or one of 127 user memories.
#[derive(Debug, Clone, Copy, PartialEq, Eq, Structural)]
pub enum MemorySlot {
    Manual,
    User(u8),
}

/// The base address of the slot with the given index: starting at `20 10 00 00`, one
/// `00 10 00 00` stride per index, the second byte carrying into the first past `0x7F`.
pub open spec fn spec_slot_address(index: nat) -> Seq<u8> {
    let offset = (index + 1) * 0x10;
    seq![(0x20 + offset / 128) as u8, (offset % 128) as u8, 0u8, 0u8]
}

/// The slot with a user-facing index: `0` is MANUAL, `1..=127` the user slots.
pub open spec fn spec_from_index(index: u8) -> Option<MemorySlot> {
    if index == 0 {
        Some(MemorySlot::Manual)
    } else if index <= MEMORY_SLOT_MAX {
        Some(MemorySlot::User(index))
    } else {
        None
    }
}

impl MemorySlot {
    /// The slot's user-facing index: 0 for MANUAL, `n` for `User(n)`.
    pub open spec fn spec_index(self) -> nat {
        match self {
            MemorySlot::Manual => 0,
            MemorySlot::User(n) => n as nat,
        }
    }

    /// One of the 128 slots the device has: MANUAL or `User(1..=127)`.
    pub open spec fn is_valid(self) -> bool {
        match self {
            MemorySlot::Manual => true,
            MemorySlot::User(n) => 1 <= n <= MEMORY_SLOT_MAX,
        }
    }

    /// Base address of this slot's 33-byte block.
    pub fn base_address(self) -> (address: [u8; 4])
        ensures
            address@ == spec_slot_address(self.spec_index()),
    {
        let index: u16 = match self {
            MemorySlot::Manual => 0,
            MemorySlot::User(n) => n as u16,
        };
        let offset_2nd = ((index + 1) * 0x10) as u32;
        assert(offset_2nd >> 7 == offset_2nd / 128 && offset_2nd & 0x7F == offset_2nd % 128)
            by (bit_vector);
        let high = 0x20 + (offset_2nd >> 7);
        let low = offset_2nd & 0x7F;
        let address = [high as u8, low as u8, 0x00, 0x00];
        assert(address@ =~= spec_slot_address(self.spec_index()));
        address
    }

    /// The slot with a user-facing index: `0` is MANUAL, `1..=127` the user slots,
    /// anything higher `None`.
    pub fn from_index(index: u8) -> (slot: Option<Self>)
        ensures
            slot == spec_from_index(index),
    {
        match index {
            0 => Some(MemorySlot::Manual),
            n if n <= MEMORY_SLOT_MAX => Some(MemorySlot::User(n)),
            _ => None,
        }
    }
}

/// Base address of user memory `n`, or `None` when `n` is not one of `1..=127`.
pub fn memory_slot_base(n: u8) -> (address: Option<[u8; 4]>)
    ensures
        match address {
            Some(a) => 1 <= n <= MEMORY_SLOT_MAX && a@ == spec_slot_address(n as nat),
            None => !(1 <= n <= MEMORY_SLOT_MAX),
        },
{
    if !(1 <= n && n <= MEMORY_SLOT_MAX) {
        return None;
    }
    Some(MemorySlot::User(n).base_address())
}

/// `from_index` and the slot index are inverse on the device's slots: every valid slot
/// comes back from its own index, and every index that `from_index` accepts names a
/// valid slot with that index.
pub proof fn lemma_slot_index_round_trip(slot: MemorySlot, index: u8)
    ensures
        slot.is_valid() ==> spec_from_index(slot.spec_index() as u8) == Some(slot),
        spec_from_index(index) matches Some(s) ==> s.is_valid() && s.spec_index() == index,
{
}

/// Distinct slot indices have distinct base addresses (the stride never collides).
pub proof fn lemma_slot_addresses_distinct(i: nat, j: nat)
    requires
        i <= 255,
        j <= 255,
        i != j,
    ensures
        spec_slot_address(i) != spec_slot_address(j),
{
    let oi = (i + 1) * 0x10;
    let oj = (j + 1) * 0x10;
    if spec_slot_address(i) == spec_slot_address(j) {
        assert(spec_slot_address(i)[0] == spec_slot_address(j)[0]);
        assert(spec_slot_address(i)[1] == spec_slot_address(j)[1]);
        assert(oi == 128 * (oi / 128) + oi % 128);
        assert(oj == 128 * (oj / 128) + oj % 128);
    }
}

/// Every slot base address is 7-bit clean (each byte below `0x80`), so it can travel in
/// a SysEx frame unchanged.
pub proof fn lemma_slot_address_is_7bit(index: nat)
    requires
        index <= 255,
    ensures
        forall|k: int| 0 <= k < 4 ==> #[trigger] spec_slot_address(index)[k] < 0x80,
{
    let a = spec_slot_address(index);
    assert(a[0] < 0x80 && a[1] < 0x80 && a[2] == 0 && a[3] == 0);
}

/// Every slot's base address, MANUAL and all 127 user slots alike, lies in the memory
/// address space, and none of them is the edit buffer's.
pub proof fn lemma_slot_address_in_memory_space(index: nat)
    requires
        index <= MEMORY_SLOT_MAX,
    ensures
        spec_classify(spec_slot_address(index)[0]) == AddressSpace::Memory,
        spec_slot_address(index) != EDIT_BUFFER_BASE@,
{
    let offset = (index + 1) * 0x10;
    assert(0x10 <= offset <= 0x800);
    assert(offset / 128 <= 16);
    let a = spec_slot_address(index);
    assert(0x20 <= a[0] <= 0x30);
    if a[0] == 0x20 {
        assert(offset < 128);
        assert(a[1] == offset % 128);
        assert(a[1] != 0);
    }
    assert(EDIT_BUFFER_BASE@[1] == 0);
}

} // verus!
