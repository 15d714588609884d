//! Fixed guest-physical layout used while constructing the boot state.

use vstd::prelude::*;

verus! {

/// Initial stack pointer for the boot CPU; the stack grows down from here.
pub const BOOT_STACK_POINTER: u64 = 0x8ff0;

/// Address reserved for the KVM task state segment.
pub const KVM_TSS_ADDRESS: usize = 0xfffb_d000;

/// Start of the high memory: the kernel is loaded here.
pub const KERNEL_START_ADDRESS: u64 = 0x0010_0000;

/// The "zero page", a.k.a. the Linux kernel boot_params block.
pub const ZERO_PAGE_START: u64 = 0x7000;

/// Kernel command line start address.
pub const CMDLINE_START: u64 = 0x20000;

/// Kernel command line maximum size, terminating NUL included.
pub const CMDLINE_MAX_SIZE: usize = 2048;

/// Guest-physical address of the boot GDT.
pub const BOOT_GDT_OFFSET: u64 = 0x500;

/// Guest-physical address of the zeroed boot IDT stub.
pub const BOOT_IDT_OFFSET: u64 = 0x520;

/// Guest-physical address of the top-level page table.
pub const PML4_START: u64 = 0x9000;

/// Guest-physical address of the page-directory-pointer table.
pub const PDPTE_START: u64 = 0xa000;

/// Guest-physical address of the page directory of 2 MiB mappings.
pub const PDE_START: u64 = 0xb000;

/// Smallest memory page size of the supported architecture.
pub const PAGE_SIZE: usize = 4096;

/// The boot arguments used when the caller supplies none.
pub fn default_kernel_cmdline() -> (s: &'static str)
    ensures
        s@ == spec_default_kernel_cmdline(),
{
    "console=ttyS0 noapic noacpi reboot=k panic=1 pci=off nomodule"
}

/// The characters of the default kernel command line.
pub open spec fn spec_default_kernel_cmdline() -> Seq<char> {
    "console=ttyS0 noapic noacpi reboot=k panic=1 pci=off nomodule"@
}

} // verus!
