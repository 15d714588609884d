//! Packing and unpacking of x86 segment descriptors for the boot GDT.

use vstd::prelude::*;

verus! {

/// The 64-bit value of a conventional segment descriptor, packed per the
/// x86 layout: limit in bits 0..16 and 48..52, base in bits 16..40 and
/// 56..64, and the access and granularity flags in bits 40..48 and 52..56.
pub open spec fn spec_gdt_entry(flags: u16, base: u32, limit: u32) -> u64 {
    (((base as u64) & 0xff00_0000u64) << 32)
        | (((flags as u64) & 0x0000_f0ffu64) << 40)
        | (((limit as u64) & 0x000f_0000u64) << 32)
        | (((base as u64) & 0x00ff_ffffu64) << 16)
        | ((limit as u64) & 0x0000_ffffu64)
}

/// The 32-bit segment base stored in a descriptor.
pub open spec fn spec_gdt_base(entry: u64) -> u64 {
    ((entry & 0xFF00_0000_0000_0000) >> 32)
        | ((entry & 0x0000_00FF_0000_0000) >> 16)
        | ((entry & 0x0000_0000_FFFF_0000) >> 16)
}

/// The 20-bit segment limit stored in a descriptor.
pub open spec fn spec_gdt_limit(entry: u64) -> u32 {
    (((entry & 0x000F_0000_0000_0000) >> 32) as u32) | ((entry & 0x0000_0000_0000_FFFF) as u32)
}

/// The granularity bit of a descriptor.
pub open spec fn spec_gdt_g(entry: u64) -> u8 {
    ((entry & 0x0080_0000_0000_0000) >> 55) as u8
}

/// The default-operation-size bit of a descriptor.
pub open spec fn spec_gdt_db(entry: u64) -> u8 {
    ((entry & 0x0040_0000_0000_0000) >> 54) as u8
}

/// The 64-bit-code bit of a descriptor.
pub open spec fn spec_gdt_l(entry: u64) -> u8 {
    ((entry & 0x0020_0000_0000_0000) >> 53) as u8
}

/// The available-for-software bit of a descriptor.
pub open spec fn spec_gdt_avl(entry: u64) -> u8 {
    ((entry & 0x0010_0000_0000_0000) >> 52) as u8
}

/// The present bit of a descriptor.
pub open spec fn spec_gdt_p(entry: u64) -> u8 {
    ((entry & 0x0000_8000_0000_0000) >> 47) as u8
}

/// The two privilege-level bits of a descriptor.
pub open spec fn spec_gdt_dpl(entry: u64) -> u8 {
    ((entry & 0x0000_6000_0000_0000) >> 45) as u8
}

/// The descriptor-type (code/data versus system) bit of a descriptor.
pub open spec fn spec_gdt_s(entry: u64) -> u8 {
    ((entry & 0x0000_1000_0000_0000) >> 44) as u8
}

/// The four type bits of a descriptor.
pub open spec fn spec_gdt_type(entry: u64) -> u8 {
    ((entry & 0x0000_0F00_0000_0000) >> 40) as u8
}

/// Constructor for a conventional segment GDT (or LDT) entry.
pub fn gdt_entry(flags: u16, base: u32, limit: u32) -> (entry: u64)
    ensures
        entry == spec_gdt_entry(flags, base, limit),
{
    (((base as u64) & 0xff00_0000u64) << 32)
        | (((flags as u64) & 0x0000_f0ffu64) << 40)
        | (((limit as u64) & 0x000f_0000u64) << 32)
        | (((base as u64) & 0x00ff_ffffu64) << 16)
        | ((limit as u64) & 0x0000_ffffu64)
}

/// Extracts the segment base from a packed descriptor.
pub fn get_base(entry: u64) -> (r: u64)
    ensures
        r == spec_gdt_base(entry),
{
    ((entry & 0xFF00_0000_0000_0000) >> 32)
        | ((entry & 0x0000_00FF_0000_0000) >> 16)
        | ((entry & 0x0000_0000_FFFF_0000) >> 16)
}

/// Extracts the segment limit from a packed descriptor.
pub fn get_limit(entry: u64) -> (r: u32)
    ensures
        r == spec_gdt_limit(entry),
{
    (((entry & 0x000F_0000_0000_0000) >> 32) as u32) | ((entry & 0x0000_0000_0000_FFFF) as u32)
}

/// Extracts the granularity bit.
pub fn get_g(entry: u64) -> (r: u8)
    ensures
        r == spec_gdt_g(entry),
{
    ((entry & 0x0080_0000_0000_0000) >> 55) as u8
}

/// Extracts the default-operation-size bit.
pub fn get_db(entry: u64) -> (r: u8)
    ensures
        r == spec_gdt_db(entry),
{
    ((entry & 0x0040_0000_0000_0000) >> 54) as u8
}

/// Extracts the 64-bit-code bit.
pub fn get_l(entry: u64) -> (r: u8)
    ensures
        r == spec_gdt_l(entry),
{
    ((entry & 0x0020_0000_0000_0000) >> 53) as u8
}

/// Extracts the available-for-software bit.
pub fn get_avl(entry: u64) -> (r: u8)
    ensures
        r == spec_gdt_avl(entry),
{
    ((entry & 0x0010_0000_0000_0000) >> 52) as u8
}

/// Extracts the present bit.
pub fn get_p(entry: u64) -> (r: u8)
    ensures
        r == spec_gdt_p(entry),
{
    ((entry & 0x0000_8000_0000_0000) >> 47) as u8
}

/// Extracts the two privilege-level bits.
pub fn get_dpl(entry: u64) -> (r: u8)
    ensures
        r == spec_gdt_dpl(entry),
{
    ((entry & 0x0000_6000_0000_0000) >> 45) as u8
}

/// Extracts the descriptor-type bit.
pub fn get_s(entry: u64) -> (r: u8)
    ensures
        r == spec_gdt_s(entry),
{
    ((entry & 0x0000_1000_0000_0000) >> 44) as u8
}

/// Extracts the four type bits.
pub fn get_type(entry: u64) -> (r: u8)
    ensures
        r == spec_gdt_type(entry),
{
    ((entry & 0x0000_0F00_0000_0000) >> 40) as u8
}

/// A segment register value in the unpacked form the hypervisor's
/// set-segment-registers operation expects.
#[derive(Clone, Copy, Debug, PartialEq, Eq, Structural)]
pub struct SegmentRegister {
    pub base: u64,
    pub limit: u32,
    pub selector: u16,
    pub type_: u8,
    pub present: u8,
    pub dpl: u8,
    pub db: u8,
    pub s: u8,
    pub l: u8,
    pub g: u8,
    pub avl: u8,
    pub padding: u8,
    pub unusable: u8,
}

/// The segment register value unpacked from GDT entry `entry` at table
/// index `table_index`.
pub open spec fn spec_kvm_segment_from_gdt(entry: u64, table_index: u8) -> SegmentRegister {
    SegmentRegister {
        base: spec_gdt_base(entry),
        limit: spec_gdt_limit(entry),
        selector: (8 * table_index) as u16,
        type_: spec_gdt_type(entry),
        present: spec_gdt_p(entry),
        dpl: spec_gdt_dpl(entry),
        db: spec_gdt_db(entry),
        s: spec_gdt_s(entry),
        l: spec_gdt_l(entry),
        g: spec_gdt_g(entry),
        avl: spec_gdt_avl(entry),
        padding: 0,
        unusable: if spec_gdt_p(entry) == 0 {
            1u8
        } else {
            0u8
        },
    }
}

/// Unpacks a GDT entry into the segment register fields the hypervisor
/// expects, with the selector derived from the entry's table index.
pub fn kvm_segment_from_gdt(entry: u64, table_index: u8) -> (seg: SegmentRegister)
    requires
        table_index < 32,
    ensures
        seg == spec_kvm_segment_from_gdt(entry, table_index),
        seg.selector == 8 * table_index,
        seg.unusable == (if spec_gdt_p(entry) == 0 { 1u8 } else { 0u8 }),
{
    let p = get_p(entry);
    SegmentRegister {
        base: get_base(entry),
        limit: get_limit(entry),
        selector: (table_index as u16) * 8,
        type_: get_type(entry),
        present: p,
        dpl: get_dpl(entry),
        db: get_db(entry),
        s: get_s(entry),
        l: get_l(entry),
        g: get_g(entry),
        avl: get_avl(entry),
        padding: 0,
        unusable: if p == 0 { 1 } else { 0 },
    }
}

/// Round trip of the descriptor encoding: packing a base, a limit that
/// fits its twenty bits and the flag bits, and unpacking the result,
/// reproduces every field.  The flag word carries the access byte in its
/// low eight bits and the granularity nibble in its top four bits.
pub proof fn lemma_gdt_entry_roundtrip(flags: u16, base: u32, limit: u32)
    requires
        limit <= 0xFFFFF,
    ensures
        spec_gdt_base(spec_gdt_entry(flags, base, limit)) == base,
        spec_gdt_limit(spec_gdt_entry(flags, base, limit)) == limit,
        spec_gdt_type(spec_gdt_entry(flags, base, limit)) == (flags & 0xF) as u8,
        spec_gdt_s(spec_gdt_entry(flags, base, limit)) == ((flags >> 4) & 1) as u8,
        spec_gdt_dpl(spec_gdt_entry(flags, base, limit)) == ((flags >> 5) & 3) as u8,
        spec_gdt_p(spec_gdt_entry(flags, base, limit)) == ((flags >> 7) & 1) as u8,
        spec_gdt_avl(spec_gdt_entry(flags, base, limit)) == ((flags >> 12) & 1) as u8,
        spec_gdt_l(spec_gdt_entry(flags, base, limit)) == ((flags >> 13) & 1) as u8,
        spec_gdt_db(spec_gdt_entry(flags, base, limit)) == ((flags >> 14) & 1) as u8,
        spec_gdt_g(spec_gdt_entry(flags, base, limit)) == ((flags >> 15) & 1) as u8,
{
    assert(spec_gdt_base(spec_gdt_entry(flags, base, limit)) == base
        && spec_gdt_limit(spec_gdt_entry(flags, base, limit)) == limit
        && spec_gdt_type(spec_gdt_entry(flags, base, limit)) == (flags & 0xF) as u8
        && spec_gdt_s(spec_gdt_entry(flags, base, limit)) == ((flags >> 4) & 1) as u8
        && spec_gdt_dpl(spec_gdt_entry(flags, base, limit)) == ((flags >> 5) & 3) as u8
        && spec_gdt_p(spec_gdt_entry(flags, base, limit)) == ((flags >> 7) & 1) as u8
        && spec_gdt_avl(spec_gdt_entry(flags, base, limit)) == ((flags >> 12) & 1) as u8
        && spec_gdt_l(spec_gdt_entry(flags, base, limit)) == ((flags >> 13) & 1) as u8
        && spec_gdt_db(spec_gdt_entry(flags, base, limit)) == ((flags >> 14) & 1) as u8
        && spec_gdt_g(spec_gdt_entry(flags, base, limit)) == ((flags >> 15) & 1) as u8) by (bit_vector)
        requires
            limit <= 0xFFFFF,
    ;
}

} // verus!
