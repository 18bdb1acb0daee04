//! Constants of the architecture and of the guest's boot layout.

use vstd::prelude::*;

verus! {

/// CR0: protected mode enable.
pub const CR0_PROTECTED_MODE: u64 = 0x0000_0001;

/// CR0: extension type.
pub const CR0_EXTENSION_TYPE: u64 = 0x0000_0010;

/// CR0: not write-through.
pub const CR0_NOT_WRITE_THROUGH: u64 = 0x2000_0000;

/// CR0: cache disable.
pub const CR0_CACHE_DISABLE: u64 = 0x4000_0000;

/// CR0: paging enable.
pub const CR0_ENABLE_PAGING: u64 = 0x8000_0000;

/// CR4: physical address extension.
pub const CR4_ENABLE_PAE: u64 = 0x0000_0020;

/// EFER: long mode enable.
pub const EFER_LME: u64 = 0x0000_0100;

/// EFER: long mode active.
pub const EFER_LMA: u64 = 0x0000_0400;

/// RFLAGS with its one reserved bit set and every other bit clear.
pub const RFLAGS_RESERVED: u64 = 0x2;

/// Time-stamp counter.
pub const TSC: u32 = 0x0000_0010;

/// SYSENTER code segment.
pub const IA32_SYSENTER_CS: u32 = 0x0000_0174;

/// SYSENTER stack pointer.
pub const IA32_SYSENTER_ESP: u32 = 0x0000_0175;

/// SYSENTER entry point.
pub const IA32_SYSENTER_EIP: u32 = 0x0000_0176;

/// SYSCALL target segments.
pub const IA32_STAR: u32 = 0xc000_0081;

/// SYSCALL target address in long mode.
pub const IA32_LSTAR: u32 = 0xc000_0082;

/// SYSCALL target address in compatibility mode.
pub const IA32_CSTAR: u32 = 0xc000_0083;

/// SYSCALL flag mask.
pub const IA32_FMASK: u32 = 0xc000_0084;

/// Base address of FS.
pub const IA32_FS_BASE: u32 = 0xc000_0100;

/// Base address of GS.
pub const IA32_GS_BASE: u32 = 0xc000_0101;

/// Base address that SWAPGS exchanges with that of GS.
pub const IA32_KERNEL_GSBASE: u32 = 0xc000_0102;

/// Auxiliary value read together with the time-stamp counter.
pub const IA32_TSC_AUX: u32 = 0xc000_0103;

/// Guest-physical address of the boot GDT.
pub const BOOT_GDT: u64 = 0x1000;

/// Number of entries of the boot GDT: the null, code and data descriptors.
pub const BOOT_GDT_MAX: u64 = 3;

/// Index of the kernel code descriptor in the boot GDT.
pub const GDT_KERNEL_CODE: u16 = 1;

/// Index of the kernel data descriptor in the boot GDT.
pub const GDT_KERNEL_DATA: u16 = 2;

/// Guest-physical address of the root of the boot page tables.
pub const BOOT_PML4: u64 = 0x10000;

/// Default guest-physical address of the local APIC.
pub const APIC_DEFAULT_BASE: u64 = 0xfee0_0000;

/// Limit of a flat segment, in units of 4 KiB.
pub const FLAT_LIMIT: u64 = 0x000f_ffff;

/// Limit of a table or segment that the guest has not set up.
pub const INERT_LIMIT: u64 = 0xffff;

/// Access rights of the flat 64-bit code segment.
pub const CODE_ACCESS_RIGHTS: u64 = 0xa09b;

/// Access rights of the flat data segments.
pub const DATA_ACCESS_RIGHTS: u64 = 0xc093;

/// Access rights of the unused task register: a busy 64-bit TSS.
pub const TR_ACCESS_RIGHTS: u64 = 0x8b;

/// Access rights of the unused local descriptor table.
pub const LDTR_ACCESS_RIGHTS: u64 = 0x82;

} // verus!
