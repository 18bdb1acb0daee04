use ehyve::arch;
use ehyve::{Field, Segment};
use x86::controlregs::{Cr0, Cr4};
use x86::vmx::vmcs::{guest, ro};

#[test]
fn fields_have_the_encodings_of_the_architecture() {
    assert_eq!(Field::Selector(Segment::Es).encoding(), guest::ES_SELECTOR);
    assert_eq!(Field::Selector(Segment::Cs).encoding(), guest::CS_SELECTOR);
    assert_eq!(Field::Selector(Segment::Ss).encoding(), guest::SS_SELECTOR);
    assert_eq!(Field::Selector(Segment::Ds).encoding(), guest::DS_SELECTOR);
    assert_eq!(Field::Selector(Segment::Fs).encoding(), guest::FS_SELECTOR);
    assert_eq!(Field::Selector(Segment::Gs).encoding(), guest::GS_SELECTOR);
    assert_eq!(Field::Selector(Segment::Ldtr).encoding(), guest::LDTR_SELECTOR);
    assert_eq!(Field::Selector(Segment::Tr).encoding(), guest::TR_SELECTOR);
    assert_eq!(Field::Limit(Segment::Es).encoding(), guest::ES_LIMIT);
    assert_eq!(Field::Limit(Segment::Cs).encoding(), guest::CS_LIMIT);
    assert_eq!(Field::Limit(Segment::Ss).encoding(), guest::SS_LIMIT);
    assert_eq!(Field::Limit(Segment::Ds).encoding(), guest::DS_LIMIT);
    assert_eq!(Field::Limit(Segment::Fs).encoding(), guest::FS_LIMIT);
    assert_eq!(Field::Limit(Segment::Gs).encoding(), guest::GS_LIMIT);
    assert_eq!(Field::Limit(Segment::Ldtr).encoding(), guest::LDTR_LIMIT);
    assert_eq!(Field::Limit(Segment::Tr).encoding(), guest::TR_LIMIT);
    assert_eq!(Field::AccessRights(Segment::Es).encoding(), guest::ES_ACCESS_RIGHTS);
    assert_eq!(Field::AccessRights(Segment::Cs).encoding(), guest::CS_ACCESS_RIGHTS);
    assert_eq!(Field::AccessRights(Segment::Ss).encoding(), guest::SS_ACCESS_RIGHTS);
    assert_eq!(Field::AccessRights(Segment::Ds).encoding(), guest::DS_ACCESS_RIGHTS);
    assert_eq!(Field::AccessRights(Segment::Fs).encoding(), guest::FS_ACCESS_RIGHTS);
    assert_eq!(Field::AccessRights(Segment::Gs).encoding(), guest::GS_ACCESS_RIGHTS);
    assert_eq!(Field::AccessRights(Segment::Ldtr).encoding(), guest::LDTR_ACCESS_RIGHTS);
    assert_eq!(Field::AccessRights(Segment::Tr).encoding(), guest::TR_ACCESS_RIGHTS);
    assert_eq!(Field::Base(Segment::Es).encoding(), guest::ES_BASE);
    assert_eq!(Field::Base(Segment::Cs).encoding(), guest::CS_BASE);
    assert_eq!(Field::Base(Segment::Ss).encoding(), guest::SS_BASE);
    assert_eq!(Field::Base(Segment::Ds).encoding(), guest::DS_BASE);
    assert_eq!(Field::Base(Segment::Fs).encoding(), guest::FS_BASE);
    assert_eq!(Field::Base(Segment::Gs).encoding(), guest::GS_BASE);
    assert_eq!(Field::Base(Segment::Ldtr).encoding(), guest::LDTR_BASE);
    assert_eq!(Field::Base(Segment::Tr).encoding(), guest::TR_BASE);
    assert_eq!(Field::GdtrLimit.encoding(), guest::GDTR_LIMIT);
    assert_eq!(Field::IdtrLimit.encoding(), guest::IDTR_LIMIT);
    assert_eq!(Field::GdtrBase.encoding(), guest::GDTR_BASE);
    assert_eq!(Field::IdtrBase.encoding(), guest::IDTR_BASE);
    assert_eq!(Field::Cr0.encoding(), guest::CR0);
    assert_eq!(Field::Cr3.encoding(), guest::CR3);
    assert_eq!(Field::Cr4.encoding(), guest::CR4);
    assert_eq!(Field::Rip.encoding(), guest::RIP);
    assert_eq!(Field::Rflags.encoding(), guest::RFLAGS);
    assert_eq!(Field::Efer.encoding(), guest::IA32_EFER_FULL);
    assert_eq!(Field::ExitReason.encoding(), ro::EXIT_REASON);
}

#[test]
fn segments_stand_in_the_order_of_the_architecture() {
    assert_eq!(Segment::Es.index(), 0);
    assert_eq!(Segment::Cs.index(), 1);
    assert_eq!(Segment::Ss.index(), 2);
    assert_eq!(Segment::Ds.index(), 3);
    assert_eq!(Segment::Fs.index(), 4);
    assert_eq!(Segment::Gs.index(), 5);
    assert_eq!(Segment::Ldtr.index(), 6);
    assert_eq!(Segment::Tr.index(), 7);
}

#[test]
fn control_register_bits_match_the_x86_crate() {
    assert_eq!(arch::CR0_PROTECTED_MODE, Cr0::CR0_PROTECTED_MODE.bits() as u64);
    assert_eq!(arch::CR0_EXTENSION_TYPE, Cr0::CR0_EXTENSION_TYPE.bits() as u64);
    assert_eq!(arch::CR0_NOT_WRITE_THROUGH, Cr0::CR0_NOT_WRITE_THROUGH.bits() as u64);
    assert_eq!(arch::CR0_CACHE_DISABLE, Cr0::CR0_CACHE_DISABLE.bits() as u64);
    assert_eq!(arch::CR0_ENABLE_PAGING, Cr0::CR0_ENABLE_PAGING.bits() as u64);
    assert_eq!(arch::CR4_ENABLE_PAE, Cr4::CR4_ENABLE_PAE.bits() as u64);
}

#[test]
fn model_specific_registers_match_the_x86_crate() {
    assert_eq!(arch::TSC, x86::msr::TSC);
    assert_eq!(arch::IA32_SYSENTER_CS, x86::msr::IA32_SYSENTER_CS);
    assert_eq!(arch::IA32_SYSENTER_ESP, x86::msr::IA32_SYSENTER_ESP);
    assert_eq!(arch::IA32_SYSENTER_EIP, x86::msr::IA32_SYSENTER_EIP);
    assert_eq!(arch::IA32_STAR, x86::msr::IA32_STAR);
    assert_eq!(arch::IA32_LSTAR, x86::msr::IA32_LSTAR);
    assert_eq!(arch::IA32_CSTAR, x86::msr::IA32_CSTAR);
    assert_eq!(arch::IA32_FMASK, x86::msr::IA32_FMASK);
    assert_eq!(arch::IA32_FS_BASE, x86::msr::IA32_FS_BASE);
    assert_eq!(arch::IA32_GS_BASE, x86::msr::IA32_GS_BASE);
    assert_eq!(arch::IA32_KERNEL_GSBASE, x86::msr::IA32_KERNEL_GSBASE);
    assert_eq!(arch::IA32_TSC_AUX, x86::msr::IA32_TSC_AUX);
}

#[test]
fn boot_layout_constants() {
    assert_eq!(arch::BOOT_GDT, 0x1000);
    assert_eq!(arch::BOOT_GDT_MAX, 3);
    assert_eq!(arch::BOOT_PML4, 0x10000);
    assert_eq!(arch::APIC_DEFAULT_BASE, 0xfee0_0000);
    assert_eq!(arch::EFER_LME, 1 << 8);
    assert_eq!(arch::EFER_LMA, 1 << 10);
    assert_eq!(arch::RFLAGS_RESERVED, 0x2);
}
