//! Segment selectors, segment access rights and the limit of a descriptor
//! table, as the control structure holds them.

use vstd::prelude::*;
use x86::segmentation::SegmentSelector;
use x86::Ring;
use crate::error::Error;

verus! {

/// The highest index that a selector can hold: a descriptor table has at most
/// 8192 entries.
pub const MAX_INDEX: u16 = 0x1fff;

/// The highest privilege level, which is the least privileged.
pub const MAX_PRIVILEGE: u8 = 3;

/// The most entries that a descriptor table can have.
pub const MAX_ENTRIES: u64 = 8192;

/// A privilege level of the processor.
#[derive(Clone, Copy, Debug, PartialEq, Eq)]
pub enum PrivilegeLevel {
    Ring0,
    Ring1,
    Ring2,
    Ring3,
}

/// The number of a privilege level.
pub open spec fn privilege_number(level: PrivilegeLevel) -> u8 {
    match level {
        PrivilegeLevel::Ring0 => 0,
        PrivilegeLevel::Ring1 => 1,
        PrivilegeLevel::Ring2 => 2,
        PrivilegeLevel::Ring3 => 3,
    }
}

/// The selector of entry `index` of the GDT, requested at `privilege`: the
/// index above the three low bits, the privilege in the two lowest.
pub open spec fn selector(index: u16, privilege: u8) -> u16 {
    (index << 3) | (privilege as u16)
}

/// The index that a selector holds.
pub open spec fn selector_index(selector: u16) -> u16 {
    selector >> 3
}

/// The privilege level that a selector holds.
pub open spec fn selector_privilege(selector: u16) -> u8 {
    (selector & 3) as u8
}

impl PrivilegeLevel {
    /// The privilege level of number `number`, which must not exceed 3.
    pub fn new(number: u8) -> (level: Result<PrivilegeLevel, Error>)
        ensures
            number <= MAX_PRIVILEGE ==> level is Ok && privilege_number(level->Ok_0) == number,
            number > MAX_PRIVILEGE ==> level == Err::<PrivilegeLevel, Error>(Error::InvalidArgument),
    {
        if number == 0 {
            Ok(PrivilegeLevel::Ring0)
        } else if number == 1 {
            Ok(PrivilegeLevel::Ring1)
        } else if number == 2 {
            Ok(PrivilegeLevel::Ring2)
        } else if number == 3 {
            Ok(PrivilegeLevel::Ring3)
        } else {
            Err(Error::InvalidArgument)
        }
    }

    /// The number of the privilege level.
    pub fn number(self) -> (number: u8)
        ensures
            number == privilege_number(self),
    {
        match self {
            PrivilegeLevel::Ring0 => 0,
            PrivilegeLevel::Ring1 => 1,
            PrivilegeLevel::Ring2 => 2,
            PrivilegeLevel::Ring3 => 3,
        }
    }
}

/// `x86::segmentation::SegmentSelector::new`, read back by `bits`. The
/// selector it makes holds the index shifted left by three bits, or-ed with
/// the number of the ring; `bits` returns that value as it is.
#[verifier::external_body]
fn selector_bits(index: u16, privilege: PrivilegeLevel) -> (bits: u16)
    requires
        index <= MAX_INDEX,
    ensures
        bits == selector(index, privilege_number(privilege)),
{
    let ring = match privilege {
        PrivilegeLevel::Ring0 => Ring::Ring0,
        PrivilegeLevel::Ring1 => Ring::Ring1,
        PrivilegeLevel::Ring2 => Ring::Ring2,
        PrivilegeLevel::Ring3 => Ring::Ring3,
    };
    SegmentSelector::new(index, ring).bits()
}

/// The selector of entry `index` of the GDT, requested at privilege level
/// `privilege`. An index above 8191 or a privilege level above 3 is refused.
pub fn encode_selector(index: u16, privilege: u8) -> (encoded: Result<u16, Error>)
    ensures
        index <= MAX_INDEX && privilege <= MAX_PRIVILEGE ==> encoded == Ok::<u16, Error>(
            selector(index, privilege),
        ),
        index > MAX_INDEX || privilege > MAX_PRIVILEGE ==> encoded == Err::<u16, Error>(
            Error::InvalidArgument,
        ),
{
    if index > MAX_INDEX {
        return Err(Error::InvalidArgument);
    }
    match PrivilegeLevel::new(privilege) {
        Ok(level) => Ok(selector_bits(index, level)),
        Err(error) => Err(error),
    }
}

/// The index and the privilege level that a selector holds.
pub fn decode_selector(encoded: u16) -> (parts: (u16, u8))
    ensures
        parts.0 == selector_index(encoded),
        parts.1 == selector_privilege(encoded),
        parts.0 <= MAX_INDEX,
        parts.1 <= MAX_PRIVILEGE,
{
    assert(encoded >> 3 <= 0x1fff) by (bit_vector);
    assert(encoded & 3 <= 3) by (bit_vector);
    (encoded >> 3, (encoded & 3) as u8)
}

/// A selector gives back the index and the privilege level that it was made
/// of.
pub proof fn lemma_selector_round_trip(index: u16, privilege: u8)
    requires
        index <= MAX_INDEX,
        privilege <= MAX_PRIVILEGE,
    ensures
        selector_index(selector(index, privilege)) == index,
        selector_privilege(selector(index, privilege)) == privilege,
{
    let p = privilege as u16;
    assert(((index << 3) | p) >> 3 == index) by (bit_vector)
        requires
            index <= 0x1fff,
            p <= 3,
    ;
    assert(((index << 3) | p) & 3 == p) by (bit_vector)
        requires
            index <= 0x1fff,
            p <= 3,
    ;
}

/// The limit of a descriptor table of `entries` descriptors of eight bytes.
pub open spec fn table_limit(entries: u64) -> int {
    8 * entries - 1
}

/// The limit of a descriptor table of `entries` descriptors of eight bytes:
/// the offset of its last byte. A table has at least one entry and at most
/// 8192.
pub fn gdt_limit(entries: u64) -> (limit: Result<u64, Error>)
    ensures
        1 <= entries <= MAX_ENTRIES ==> limit is Ok && limit->Ok_0 == table_limit(entries),
        entries < 1 || entries > MAX_ENTRIES ==> limit == Err::<u64, Error>(Error::InvalidArgument),
{
    if entries < 1 || entries > MAX_ENTRIES {
        Err(Error::InvalidArgument)
    } else {
        Ok(8 * entries - 1)
    }
}

/// The access rights of a segment, field by field.
#[derive(Clone, Copy, Debug, PartialEq, Eq)]
pub struct AccessRights {
    /// The type of the segment, four bits wide.
    pub kind: u8,
    /// Set for a code or data segment, clear for a system segment.
    pub segment: bool,
    /// The privilege level of the descriptor, two bits wide.
    pub dpl: u8,
    pub present: bool,
    /// Free for use by system software.
    pub available: bool,
    /// Set for a 64-bit code segment.
    pub long: bool,
    /// The default operation size.
    pub db: bool,
    /// Set where the limit counts units of 4 KiB.
    pub granularity: bool,
}

/// The value of one flag: `bit` where the flag is set.
pub open spec fn flag(set: bool, bit: u32) -> u32 {
    if set {
        bit
    } else {
        0
    }
}

/// Access rights are valid when the type and the privilege level fit their
/// fields.
pub open spec fn valid_rights(rights: AccessRights) -> bool {
    rights.kind <= 0xf && rights.dpl <= 3
}

/// The packed value of access rights: type in bits 0 to 3, segment flag in
/// bit 4, privilege level in bits 5 and 6, present in bit 7, available in
/// bit 12, long in bit 13, default size in bit 14, granularity in bit 15.
pub open spec fn packed(rights: AccessRights) -> u32 {
    (rights.kind as u32) | flag(rights.segment, 0x10) | ((rights.dpl as u32) << 5) | flag(
        rights.present,
        0x80,
    ) | flag(rights.available, 0x1000) | flag(rights.long, 0x2000) | flag(rights.db, 0x4000)
        | flag(rights.granularity, 0x8000)
}

/// The fields of a packed value of access rights. Bits that belong to no
/// field are passed over.
pub open spec fn unpacked(bits: u32) -> AccessRights {
    AccessRights {
        kind: (bits & 0xf) as u8,
        segment: bits & 0x10 != 0,
        dpl: ((bits >> 5) & 0x3) as u8,
        present: bits & 0x80 != 0,
        available: bits & 0x1000 != 0,
        long: bits & 0x2000 != 0,
        db: bits & 0x4000 != 0,
        granularity: bits & 0x8000 != 0,
    }
}

fn flag_bit(set: bool, bit: u32) -> (value: u32)
    ensures
        value == flag(set, bit),
{
    if set {
        bit
    } else {
        0
    }
}

impl AccessRights {
    /// The packed value of the access rights. A type above 15 or a privilege
    /// level above 3 is refused.
    pub fn encode(&self) -> (encoded: Result<u32, Error>)
        ensures
            valid_rights(*self) ==> encoded == Ok::<u32, Error>(packed(*self)),
            !valid_rights(*self) ==> encoded == Err::<u32, Error>(Error::InvalidArgument),
    {
        if self.kind > 0xf || self.dpl > 3 {
            return Err(Error::InvalidArgument);
        }
        Ok(
            (self.kind as u32) | flag_bit(self.segment, 0x10) | ((self.dpl as u32) << 5) | flag_bit(
                self.present,
                0x80,
            ) | flag_bit(self.available, 0x1000) | flag_bit(self.long, 0x2000) | flag_bit(
                self.db,
                0x4000,
            ) | flag_bit(self.granularity, 0x8000),
        )
    }

    /// The fields of a packed value of access rights.
    pub fn decode(bits: u32) -> (rights: AccessRights)
        ensures
            rights == unpacked(bits),
            valid_rights(rights),
    {
        assert(bits & 0xf <= 0xf) by (bit_vector);
        assert((bits >> 5) & 0x3 <= 0x3) by (bit_vector);
        AccessRights {
            kind: (bits & 0xf) as u8,
            segment: bits & 0x10 != 0,
            dpl: ((bits >> 5) & 0x3) as u8,
            present: bits & 0x80 != 0,
            available: bits & 0x1000 != 0,
            long: bits & 0x2000 != 0,
            db: bits & 0x4000 != 0,
            granularity: bits & 0x8000 != 0,
        }
    }
}

proof fn lemma_fields_apart(k: u32, s: u32, d: u32, p: u32, a: u32, l: u32, b: u32, g: u32)
    by (bit_vector)
    requires
        k <= 0xf,
        s == 0 || s == 0x10,
        d <= 3,
        p == 0 || p == 0x80,
        a == 0 || a == 0x1000,
        l == 0 || l == 0x2000,
        b == 0 || b == 0x4000,
        g == 0 || g == 0x8000,
    ensures
        (k | s | (d << 5) | p | a | l | b | g) & 0xf == k,
        (k | s | (d << 5) | p | a | l | b | g) & 0x10 == s,
        ((k | s | (d << 5) | p | a | l | b | g) >> 5) & 0x3 == d,
        (k | s | (d << 5) | p | a | l | b | g) & 0x80 == p,
        (k | s | (d << 5) | p | a | l | b | g) & 0x1000 == a,
        (k | s | (d << 5) | p | a | l | b | g) & 0x2000 == l,
        (k | s | (d << 5) | p | a | l | b | g) & 0x4000 == b,
        (k | s | (d << 5) | p | a | l | b | g) & 0x8000 == g,
{
}

/// Valid access rights come back from their packed value field for field.
pub proof fn lemma_rights_round_trip(rights: AccessRights)
    requires
        valid_rights(rights),
    ensures
        unpacked(packed(rights)) == rights,
{
    lemma_fields_apart(
        rights.kind as u32,
        flag(rights.segment, 0x10),
        rights.dpl as u32,
        flag(rights.present, 0x80),
        flag(rights.available, 0x1000),
        flag(rights.long, 0x2000),
        flag(rights.db, 0x4000),
        flag(rights.granularity, 0x8000),
    );
}

} // verus!
