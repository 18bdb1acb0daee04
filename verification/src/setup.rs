//! The initialization pipeline: the calls that bring a virtual CPU into
//! 64-bit long mode at a guest entry point, in the order in which they are
//! made.

use vstd::prelude::*;
use crate::arch::{
    APIC_DEFAULT_BASE, BOOT_GDT, BOOT_GDT_MAX, BOOT_PML4, CODE_ACCESS_RIGHTS, CR0_CACHE_DISABLE,
    CR0_ENABLE_PAGING, CR0_EXTENSION_TYPE, CR0_NOT_WRITE_THROUGH, CR0_PROTECTED_MODE,
    CR4_ENABLE_PAE, DATA_ACCESS_RIGHTS, EFER_LMA, EFER_LME, FLAT_LIMIT, GDT_KERNEL_CODE,
    GDT_KERNEL_DATA, IA32_CSTAR, IA32_FMASK, IA32_FS_BASE, IA32_GS_BASE, IA32_KERNEL_GSBASE,
    IA32_LSTAR, IA32_STAR, IA32_SYSENTER_CS, IA32_SYSENTER_EIP, IA32_SYSENTER_ESP, IA32_TSC_AUX,
    INERT_LIMIT, LDTR_ACCESS_RIGHTS, RFLAGS_RESERVED, TR_ACCESS_RIGHTS, TSC,
};
use crate::host::{Field, HostCall, Segment};
use crate::segment::{
    encode_selector, gdt_limit, lemma_rights_round_trip, packed, selector, table_limit, unpacked,
    AccessRights,
};

verus! {

/// The call that lets the guest use `msr` without a trap.
pub open spec fn pass_through(msr: u32) -> HostCall {
    HostCall::EnableMsr { msr, enable: true }
}

/// The call that writes `value` to `field`.
pub open spec fn write(field: Field, value: u64) -> HostCall {
    HostCall::WriteField { field, value }
}

/// The pass-through of the model-specific registers that the guest uses
/// itself: the segment bases, the targets of fast system calls, and the
/// time-stamp counter.
pub open spec fn msr_calls() -> Seq<HostCall> {
    seq![
        pass_through(IA32_FS_BASE),
        pass_through(IA32_GS_BASE),
        pass_through(IA32_KERNEL_GSBASE),
        pass_through(IA32_SYSENTER_CS),
        pass_through(IA32_SYSENTER_EIP),
        pass_through(IA32_SYSENTER_ESP),
        pass_through(IA32_STAR),
        pass_through(IA32_LSTAR),
        pass_through(IA32_CSTAR),
        pass_through(IA32_FMASK),
        pass_through(TSC),
        pass_through(IA32_TSC_AUX),
    ]
}

/// The writes that make `segment` flat: the whole address space from base
/// zero, with the given access rights.
pub open spec fn flat_segment_calls(segment: Segment, rights: u64) -> Seq<HostCall> {
    seq![
        write(Field::Limit(segment), FLAT_LIMIT),
        write(Field::Base(segment), 0),
        write(Field::AccessRights(segment), rights),
    ]
}

/// The writes that place the GDT at the boot GDT and leave the IDT empty.
pub open spec fn table_calls() -> Seq<HostCall> {
    seq![
        write(Field::GdtrBase, BOOT_GDT),
        write(Field::GdtrLimit, table_limit(BOOT_GDT_MAX) as u64),
        write(Field::IdtrBase, 0),
        write(Field::IdtrLimit, INERT_LIMIT),
    ]
}

/// The writes that leave the task register and the local descriptor table
/// inert.
pub open spec fn inert_calls() -> Seq<HostCall> {
    seq![
        write(Field::Limit(Segment::Tr), INERT_LIMIT),
        write(Field::AccessRights(Segment::Tr), TR_ACCESS_RIGHTS),
        write(Field::Base(Segment::Tr), 0),
        write(Field::Limit(Segment::Ldtr), INERT_LIMIT),
        write(Field::AccessRights(Segment::Ldtr), LDTR_ACCESS_RIGHTS),
        write(Field::Base(Segment::Ldtr), 0),
    ]
}

/// The selector of the kernel's code descriptor, at ring 0.
pub open spec fn kernel_code_selector() -> u64 {
    selector(GDT_KERNEL_CODE, 0) as u64
}

/// The selector of the kernel's data descriptor, at ring 0.
pub open spec fn kernel_data_selector() -> u64 {
    selector(GDT_KERNEL_DATA, 0) as u64
}

/// The writes that load the segment registers with the kernel's selectors.
pub open spec fn selector_calls() -> Seq<HostCall> {
    seq![
        write(Field::Selector(Segment::Cs), kernel_code_selector()),
        write(Field::Selector(Segment::Ds), kernel_data_selector()),
        write(Field::Selector(Segment::Es), kernel_data_selector()),
        write(Field::Selector(Segment::Ss), kernel_data_selector()),
        write(Field::Selector(Segment::Fs), kernel_data_selector()),
        write(Field::Selector(Segment::Gs), kernel_data_selector()),
    ]
}

/// The setup of the descriptor tables: flat code and data segments, the GDT
/// and IDT registers, the inert task register and local descriptor table,
/// and last the selectors.
pub open spec fn gdt_calls() -> Seq<HostCall> {
    flat_segment_calls(Segment::Cs, CODE_ACCESS_RIGHTS) + flat_segment_calls(
        Segment::Ss,
        DATA_ACCESS_RIGHTS,
    ) + flat_segment_calls(Segment::Ds, DATA_ACCESS_RIGHTS) + flat_segment_calls(
        Segment::Es,
        DATA_ACCESS_RIGHTS,
    ) + flat_segment_calls(Segment::Fs, DATA_ACCESS_RIGHTS) + flat_segment_calls(
        Segment::Gs,
        DATA_ACCESS_RIGHTS,
    ) + table_calls() + inert_calls() + selector_calls()
}

/// CR0 of long mode: protected mode and paging, caching off, and the
/// extension type that the architecture fixes.
pub open spec fn long_mode_cr0() -> u64 {
    CR0_PROTECTED_MODE | CR0_ENABLE_PAGING | CR0_CACHE_DISABLE | CR0_NOT_WRITE_THROUGH
        | CR0_EXTENSION_TYPE
}

/// EFER of long mode: enabled and active.
pub open spec fn long_mode_efer() -> u64 {
    EFER_LME | EFER_LMA
}

/// The four writes of the switch to long mode: CR0, CR4, EFER and the root of
/// the page tables.
pub open spec fn long_mode_calls() -> Seq<HostCall> {
    seq![
        write(Field::Cr0, long_mode_cr0()),
        write(Field::Cr4, CR4_ENABLE_PAE),
        write(Field::Efer, long_mode_efer()),
        write(Field::Cr3, BOOT_PML4),
    ]
}

/// The placing of the local APIC, and the writes of the entry point and of
/// the flags at boot.
pub open spec fn entry_calls(entry_point: u64) -> Seq<HostCall> {
    seq![
        HostCall::SetApicBase { address: APIC_DEFAULT_BASE },
        write(Field::Rip, entry_point),
        write(Field::Rflags, RFLAGS_RESERVED),
    ]
}

/// The whole pipeline for a guest that starts at `entry_point`.
pub open spec fn init_calls(entry_point: u64) -> Seq<HostCall> {
    msr_calls() + entry_calls(entry_point) + gdt_calls() + long_mode_calls()
}

/// The number of calls of the pipeline.
pub const INIT_CALLS: usize = 53;

fn enable(msr: u32) -> (call: HostCall)
    ensures
        call == pass_through(msr),
{
    HostCall::EnableMsr { msr, enable: true }
}

fn set(field: Field, value: u64) -> (call: HostCall)
    ensures
        call == write(field, value),
{
    HostCall::WriteField { field, value }
}

fn push_flat_segment(calls: &mut Vec<HostCall>, segment: Segment, rights: u64)
    ensures
        final(calls)@ == old(calls)@ + flat_segment_calls(segment, rights),
{
    calls.push(set(Field::Limit(segment), FLAT_LIMIT));
    calls.push(set(Field::Base(segment), 0));
    calls.push(set(Field::AccessRights(segment), rights));
    assert(calls@ =~= old(calls)@ + flat_segment_calls(segment, rights));
}

fn push_all(calls: &mut Vec<HostCall>, more: &Vec<HostCall>)
    ensures
        final(calls)@ == old(calls)@ + more@,
{
    let mut i: usize = 0;
    while i < more.len()
        invariant
            i <= more.len(),
            calls@ == old(calls)@ + more@.take(i as int),
        decreases more.len() - i,
    {
        calls.push(more[i]);
        i = i + 1;
        assert(calls@ =~= old(calls)@ + more@.take(i as int));
    }
    assert(more@.take(i as int) =~= more@);
}

/// The calls that enable the pass-through of model-specific registers.
pub fn setup_msr() -> (calls: Vec<HostCall>)
    ensures
        calls@ == msr_calls(),
{
    let mut calls: Vec<HostCall> = Vec::new();
    calls.push(enable(IA32_FS_BASE));
    calls.push(enable(IA32_GS_BASE));
    calls.push(enable(IA32_KERNEL_GSBASE));
    calls.push(enable(IA32_SYSENTER_CS));
    calls.push(enable(IA32_SYSENTER_EIP));
    calls.push(enable(IA32_SYSENTER_ESP));
    calls.push(enable(IA32_STAR));
    calls.push(enable(IA32_LSTAR));
    calls.push(enable(IA32_CSTAR));
    calls.push(enable(IA32_FMASK));
    calls.push(enable(TSC));
    calls.push(enable(IA32_TSC_AUX));
    assert(calls@ =~= msr_calls());
    calls
}

/// The calls that set up the descriptor tables.
pub fn setup_system_gdt() -> (calls: Vec<HostCall>)
    ensures
        calls@ == gdt_calls(),
{
    let mut calls: Vec<HostCall> = Vec::new();
    push_flat_segment(&mut calls, Segment::Cs, CODE_ACCESS_RIGHTS);
    push_flat_segment(&mut calls, Segment::Ss, DATA_ACCESS_RIGHTS);
    push_flat_segment(&mut calls, Segment::Ds, DATA_ACCESS_RIGHTS);
    push_flat_segment(&mut calls, Segment::Es, DATA_ACCESS_RIGHTS);
    push_flat_segment(&mut calls, Segment::Fs, DATA_ACCESS_RIGHTS);
    push_flat_segment(&mut calls, Segment::Gs, DATA_ACCESS_RIGHTS);
    assert(calls@ =~= flat_segment_calls(Segment::Cs, CODE_ACCESS_RIGHTS) + flat_segment_calls(
        Segment::Ss,
        DATA_ACCESS_RIGHTS,
    ) + flat_segment_calls(Segment::Ds, DATA_ACCESS_RIGHTS) + flat_segment_calls(
        Segment::Es,
        DATA_ACCESS_RIGHTS,
    ) + flat_segment_calls(Segment::Fs, DATA_ACCESS_RIGHTS) + flat_segment_calls(
        Segment::Gs,
        DATA_ACCESS_RIGHTS,
    ));
    let ghost segments = calls@;

    let limit: u64 = gdt_limit(BOOT_GDT_MAX).unwrap();
    calls.push(set(Field::GdtrBase, BOOT_GDT));
    calls.push(set(Field::GdtrLimit, limit));
    calls.push(set(Field::IdtrBase, 0));
    calls.push(set(Field::IdtrLimit, INERT_LIMIT));
    assert(calls@ =~= segments + table_calls());
    let ghost tables = calls@;

    calls.push(set(Field::Limit(Segment::Tr), INERT_LIMIT));
    calls.push(set(Field::AccessRights(Segment::Tr), TR_ACCESS_RIGHTS));
    calls.push(set(Field::Base(Segment::Tr), 0));
    calls.push(set(Field::Limit(Segment::Ldtr), INERT_LIMIT));
    calls.push(set(Field::AccessRights(Segment::Ldtr), LDTR_ACCESS_RIGHTS));
    calls.push(set(Field::Base(Segment::Ldtr), 0));
    assert(calls@ =~= tables + inert_calls());
    let ghost inert = calls@;

    let code: u64 = encode_selector(GDT_KERNEL_CODE, 0).unwrap() as u64;
    let data: u64 = encode_selector(GDT_KERNEL_DATA, 0).unwrap() as u64;
    calls.push(set(Field::Selector(Segment::Cs), code));
    calls.push(set(Field::Selector(Segment::Ds), data));
    calls.push(set(Field::Selector(Segment::Es), data));
    calls.push(set(Field::Selector(Segment::Ss), data));
    calls.push(set(Field::Selector(Segment::Fs), data));
    calls.push(set(Field::Selector(Segment::Gs), data));
    assert(calls@ =~= inert + selector_calls());
    calls
}

/// The calls that switch to long mode.
pub fn setup_system_64bit() -> (calls: Vec<HostCall>)
    ensures
        calls@ == long_mode_calls(),
{
    let mut calls: Vec<HostCall> = Vec::new();
    let cr0: u64 = CR0_PROTECTED_MODE | CR0_ENABLE_PAGING | CR0_CACHE_DISABLE
        | CR0_NOT_WRITE_THROUGH | CR0_EXTENSION_TYPE;
    calls.push(set(Field::Cr0, cr0));
    calls.push(set(Field::Cr4, CR4_ENABLE_PAE));
    calls.push(set(Field::Efer, EFER_LME | EFER_LMA));
    calls.push(set(Field::Cr3, BOOT_PML4));
    assert(calls@ =~= long_mode_calls());
    calls
}

/// The whole pipeline for a guest that starts at `entry_point`: the
/// pass-through of model-specific registers, the local APIC, the entry point
/// and flags, the descriptor tables, and the switch to long mode.
pub fn init_plan(entry_point: u64) -> (calls: Vec<HostCall>)
    ensures
        calls@ == init_calls(entry_point),
        calls@.len() == INIT_CALLS,
{
    let mut calls: Vec<HostCall> = setup_msr();
    calls.push(HostCall::SetApicBase { address: APIC_DEFAULT_BASE });
    calls.push(set(Field::Rip, entry_point));
    calls.push(set(Field::Rflags, RFLAGS_RESERVED));
    assert(calls@ =~= msr_calls() + entry_calls(entry_point));
    let gdt = setup_system_gdt();
    push_all(&mut calls, &gdt);
    let long_mode = setup_system_64bit();
    push_all(&mut calls, &long_mode);
    calls
}

/// The value that `call` writes to `field`, if it writes to it.
pub open spec fn written_by(call: HostCall, field: Field) -> Option<u64> {
    match call {
        HostCall::WriteField { field: target, value } => if target == field {
            Some(value)
        } else {
            None
        },
        _ => None,
    }
}

/// The value that `field` holds after the host has carried out `calls` in
/// their order: that of the last write to the field, if there is one.
pub open spec fn value_written(calls: Seq<HostCall>, field: Field) -> Option<u64>
    decreases calls.len(),
{
    if calls.len() == 0 {
        None
    } else if written_by(calls.last(), field) is Some {
        written_by(calls.last(), field)
    } else {
        value_written(calls.drop_last(), field)
    }
}

/// A write that no later call of the sequence overwrites gives the field its
/// value.
pub proof fn lemma_last_write(calls: Seq<HostCall>, index: int, field: Field)
    requires
        0 <= index < calls.len(),
        written_by(calls[index], field) is Some,
        forall|j: int| index < j < calls.len() ==> written_by(#[trigger] calls[j], field) is None,
    ensures
        value_written(calls, field) == written_by(calls[index], field),
    decreases calls.len(),
{
    if index < calls.len() - 1 {
        let shorter = calls.drop_last();
        assert(written_by(calls[calls.len() - 1], field) is None);
        assert(shorter[index] == calls[index]);
        assert forall|j: int| index < j < shorter.len() implies written_by(
            #[trigger] shorter[j],
            field,
        ) is None by {
            assert(shorter[j] == calls[j]);
        }
        lemma_last_write(shorter, index, field);
    }
}

/// The values that the pipeline writes last: the selectors are 8 for code
/// and 16 for data, the limit of the boot GDT is 23, CR0 is `0xe0000011` and
/// EFER is `0x500`.
pub proof fn lemma_values()
    ensures
        kernel_code_selector() == 0x8,
        kernel_data_selector() == 0x10,
        table_limit(BOOT_GDT_MAX) == 23,
        long_mode_cr0() == 0xe000_0011,
        long_mode_efer() == 0x500,
{
    assert((1u16 << 3) | 0u16 == 8u16) by (bit_vector);
    assert((2u16 << 3) | 0u16 == 16u16) by (bit_vector);
    assert(0x1u64 | 0x8000_0000u64 | 0x4000_0000u64 | 0x2000_0000u64 | 0x10u64 == 0xe000_0011u64)
        by (bit_vector);
    assert(0x100u64 | 0x400u64 == 0x500u64) by (bit_vector);
}

/// The access rights of a present segment of ring 0 with the given type and
/// flags, and with the available bit clear.
pub open spec fn boot_rights(kind: u8, segment: bool, long: bool, db: bool, granularity: bool)
    -> AccessRights {
    AccessRights { kind, segment, dpl: 0, present: true, available: false, long, db, granularity }
}

/// The access rights that the pipeline writes, field by field. The code
/// segment is an accessed, readable code segment in long mode; the data
/// segments are accessed, writable data segments of 32-bit default size;
/// both count their limit in units of 4 KiB. The task register holds a busy
/// TSS and the local descriptor table an LDT, both system segments. All four
/// are present and of ring 0.
pub proof fn lemma_boot_rights()
    ensures
        packed(boot_rights(0xb, true, true, false, true)) == CODE_ACCESS_RIGHTS,
        unpacked(CODE_ACCESS_RIGHTS as u32) == boot_rights(0xb, true, true, false, true),
        packed(boot_rights(0x3, true, false, true, true)) == DATA_ACCESS_RIGHTS,
        unpacked(DATA_ACCESS_RIGHTS as u32) == boot_rights(0x3, true, false, true, true),
        packed(boot_rights(0xb, false, false, false, false)) == TR_ACCESS_RIGHTS,
        unpacked(TR_ACCESS_RIGHTS as u32) == boot_rights(0xb, false, false, false, false),
        packed(boot_rights(0x2, false, false, false, false)) == LDTR_ACCESS_RIGHTS,
        unpacked(LDTR_ACCESS_RIGHTS as u32) == boot_rights(0x2, false, false, false, false),
{
    assert(0xbu32 | 0x10u32 | (0u32 << 5) | 0x80u32 | 0u32 | 0x2000u32 | 0u32 | 0x8000u32
        == 0xa09bu32) by (bit_vector);
    assert(0x3u32 | 0x10u32 | (0u32 << 5) | 0x80u32 | 0u32 | 0u32 | 0x4000u32 | 0x8000u32
        == 0xc093u32) by (bit_vector);
    assert(0xbu32 | 0u32 | (0u32 << 5) | 0x80u32 | 0u32 | 0u32 | 0u32 | 0u32 == 0x8bu32)
        by (bit_vector);
    assert(0x2u32 | 0u32 | (0u32 << 5) | 0x80u32 | 0u32 | 0u32 | 0u32 | 0u32 == 0x82u32)
        by (bit_vector);
    lemma_rights_round_trip(boot_rights(0xb, true, true, false, true));
    lemma_rights_round_trip(boot_rights(0x3, true, false, true, true));
    lemma_rights_round_trip(boot_rights(0xb, false, false, false, false));
    lemma_rights_round_trip(boot_rights(0x2, false, false, false, false));
}

/// After the whole pipeline the guest stands at its entry point with the
/// flags of boot, and is in long mode: CR0 has protected mode and paging on,
/// CR4 has the physical address extension on, EFER has long mode enabled and
/// active, and CR3 points to the boot page tables. The GDT register holds
/// the boot GDT with the limit of its three entries.
pub proof fn lemma_init_enters_long_mode(entry_point: u64)
    ensures
        value_written(init_calls(entry_point), Field::Rip) == Some(entry_point),
        value_written(init_calls(entry_point), Field::Rflags) == Some(RFLAGS_RESERVED),
        value_written(init_calls(entry_point), Field::Cr0) == Some(long_mode_cr0()),
        long_mode_cr0() & (CR0_PROTECTED_MODE | CR0_ENABLE_PAGING) == CR0_PROTECTED_MODE
            | CR0_ENABLE_PAGING,
        value_written(init_calls(entry_point), Field::Cr4) == Some(CR4_ENABLE_PAE),
        value_written(init_calls(entry_point), Field::Efer) == Some(long_mode_efer()),
        long_mode_efer() & (EFER_LME | EFER_LMA) == EFER_LME | EFER_LMA,
        value_written(init_calls(entry_point), Field::Cr3) == Some(BOOT_PML4),
        value_written(init_calls(entry_point), Field::GdtrBase) == Some(BOOT_GDT),
        value_written(init_calls(entry_point), Field::GdtrLimit) == Some(
            (8 * BOOT_GDT_MAX - 1) as u64,
        ),
{
    let calls = init_calls(entry_point);
    assert(calls.len() == 53);
    lemma_last_write(calls, 13, Field::Rip);
    lemma_last_write(calls, 14, Field::Rflags);
    lemma_last_write(calls, 33, Field::GdtrBase);
    lemma_last_write(calls, 34, Field::GdtrLimit);
    lemma_last_write(calls, 49, Field::Cr0);
    lemma_last_write(calls, 50, Field::Cr4);
    lemma_last_write(calls, 51, Field::Efer);
    lemma_last_write(calls, 52, Field::Cr3);
    lemma_values();
    assert(0xe000_0011u64 & (0x1u64 | 0x8000_0000u64) == 0x1u64 | 0x8000_0000u64)
        by (bit_vector);
    assert(0x500u64 & (0x100u64 | 0x400u64) == 0x100u64 | 0x400u64) by (bit_vector);
}

} // verus!
