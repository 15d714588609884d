//! Boot values of the vCPU registers: general registers, FPU, segment
//! and control registers, the boot GDT and IDT, and the identity page
//! tables.

use vstd::prelude::*;
use vstd::slice::slice_index_get;

use crate::gdt;
use crate::layout;
use crate::mem::GuestRam;
use crate::system::BootError;

verus! {

/// Long-mode-active bit of the EFER register.
pub const EFER_LMA: u64 = 0x400;

/// Long-mode-enable bit of the EFER register.
pub const EFER_LME: u64 = 0x100;

/// Protected-mode-enable bit of CR0.
pub const X86_CR0_PE: u64 = 0x1;

/// Paging-enable bit of CR0.
pub const X86_CR0_PG: u64 = 0x8000_0000;

/// Physical-address-extension bit of CR4.
pub const X86_CR4_PAE: u64 = 0x20;

/// Number of entries of the boot GDT.
pub const BOOT_GDT_MAX: usize = 4;

/// The general registers the boot sets; every other register is zero.
#[derive(Clone, Copy, Debug, PartialEq, Eq, Structural)]
pub struct Regs {
    pub rflags: u64,
    pub rip: u64,
    pub rsp: u64,
    pub rbp: u64,
    pub rsi: u64,
}

/// The FPU registers the boot sets; every other field is zero.
#[derive(Clone, Copy, Debug, PartialEq, Eq, Structural)]
pub struct Fpu {
    pub fcw: u16,
    pub mxcsr: u32,
}

/// A descriptor-table register value: base address and limit.
#[derive(Clone, Copy, Debug, PartialEq, Eq, Structural)]
pub struct DescriptorTable {
    pub base: u64,
    pub limit: u16,
}

/// The segment and control registers the boot configures, in the
/// unpacked form the hypervisor's set-special-registers operation
/// expects.
#[derive(Clone, Copy, Debug, PartialEq, Eq, Structural)]
pub struct Sregs {
    pub cs: gdt::SegmentRegister,
    pub ds: gdt::SegmentRegister,
    pub es: gdt::SegmentRegister,
    pub fs: gdt::SegmentRegister,
    pub gs: gdt::SegmentRegister,
    pub ss: gdt::SegmentRegister,
    pub tr: gdt::SegmentRegister,
    pub gdt: DescriptorTable,
    pub idt: DescriptorTable,
    pub cr0: u64,
    pub cr3: u64,
    pub cr4: u64,
    pub efer: u64,
}

/// The general registers at guest entry: `rip` at the kernel, the boot
/// stack, the zero page in `rsi` per the x86-64 Linux boot ABI, and the
/// reserved flag bit set.
pub fn boot_regs(boot_ip: u64) -> (r: Regs)
    ensures
        r.rflags == 2,
        r.rip == boot_ip,
        r.rsp == layout::BOOT_STACK_POINTER,
        r.rbp == layout::BOOT_STACK_POINTER,
        r.rsi == layout::ZERO_PAGE_START,
{
    Regs {
        rflags: 2,
        rip: boot_ip,
        rsp: layout::BOOT_STACK_POINTER,
        rbp: layout::BOOT_STACK_POINTER,
        rsi: layout::ZERO_PAGE_START,
    }
}

/// The FPU registers at guest entry: the x87 control word and MXCSR at
/// their architectural defaults.
pub fn boot_fpu() -> (r: Fpu)
    ensures
        r.fcw == 0x37f,
        r.mxcsr == 0x1f80,
{
    Fpu { fcw: 0x37f, mxcsr: 0x1f80 }
}

/// The four boot GDT entries: NULL, 64-bit code, data, and TSS, all
/// flat over 4 GiB.
pub open spec fn spec_boot_gdt() -> Seq<u64> {
    seq![
        gdt::spec_gdt_entry(0, 0, 0),
        gdt::spec_gdt_entry(0xa09b, 0, 0xfffff),
        gdt::spec_gdt_entry(0xc093, 0, 0xfffff),
        gdt::spec_gdt_entry(0x808b, 0, 0xfffff),
    ]
}

/// The guest address of boot GDT slot `i`.
pub open spec fn gdt_slot(i: int) -> u64 {
    (layout::BOOT_GDT_OFFSET + 8 * i) as u64
}

/// Writes the GDT `table` into guest memory at the boot GDT address,
/// one 8-byte descriptor per entry.  Fails exactly when the table does
/// not fit below the end of guest RAM; on success the word log holds
/// every descriptor at its slot and every other address is untouched.
pub fn write_gdt_table(table: &[u64], mem: &mut GuestRam) -> (r: Result<(), BootError>)
    requires
        table@.len() <= 8192,
    ensures
        final(mem).spec_size() == old(mem).spec_size(),
        r is Ok <==> layout::BOOT_GDT_OFFSET + 8 * table@.len() <= old(mem).spec_size() || table@.len()
            == 0,
        r is Ok ==> forall|i: int|
            0 <= i < table@.len() ==> #[trigger] final(mem).word_log().contains_key(gdt_slot(i)),
        r is Ok ==> forall|i: int|
            0 <= i < table@.len() ==> #[trigger] final(mem).word_log()[gdt_slot(i)] == table@[i],
        r is Ok ==> forall|a: u64|
            !(layout::BOOT_GDT_OFFSET <= a < layout::BOOT_GDT_OFFSET + 8 * table@.len()) ==> (
            #[trigger] final(mem).word_log().contains_key(a) <==> old(mem).word_log().contains_key(
                a,
            )) && (old(mem).word_log().contains_key(a) ==> final(mem).word_log()[a] == old(mem).word_log()[a]),
{
    let n: usize = table.len();
    let mut i: usize = 0;
    while i < n
        invariant
            i <= n,
            n == table@.len(),
            n <= 8192,
            mem.spec_size() == old(mem).spec_size(),
            i > 0 ==> layout::BOOT_GDT_OFFSET + 8 * i <= old(mem).spec_size(),
            forall|j: int| 0 <= j < i ==> #[trigger] mem.word_log().contains_key(gdt_slot(j)),
            forall|j: int| 0 <= j < i ==> #[trigger] mem.word_log()[gdt_slot(j)] == table@[j],
            forall|a: u64|
                !(layout::BOOT_GDT_OFFSET <= a < layout::BOOT_GDT_OFFSET + 8 * i) ==> (
                #[trigger] mem.word_log().contains_key(a) <==> old(mem).word_log().contains_key(a))
                    && (old(mem).word_log().contains_key(a) ==> mem.word_log()[a] == old(mem).word_log()[a]),
        decreases n - i,
    {
        let ghost mp = *mem;
        let addr: u64 = layout::BOOT_GDT_OFFSET + 8 * (i as u64);
        if !mem.write_u64(addr, *slice_index_get(table, i)) {
            return Err(BootError::MemWrite);
        }
        proof {
            assert(mem.word_log() == mp.word_log().insert(addr, table@[i as int]));
            assert(gdt_slot(i as int) == addr);
            assert forall|a: u64|
                !(layout::BOOT_GDT_OFFSET <= a < layout::BOOT_GDT_OFFSET + 8 * (i + 1)) implies ((
            #[trigger] mem.word_log().contains_key(a) <==> old(mem).word_log().contains_key(a)) && (
            old(mem).word_log().contains_key(a) ==> mem.word_log()[a] == old(mem).word_log()[a])) by {
                assert(a != addr);
                assert(!(layout::BOOT_GDT_OFFSET <= a < layout::BOOT_GDT_OFFSET + 8 * i));
                assert(mp.word_log().contains_key(a) <==> old(mem).word_log().contains_key(a));
                assert(old(mem).word_log().contains_key(a) ==> mp.word_log()[a] == old(
                    mem,
                ).word_log()[a]);
            }
            assert forall|j: int| 0 <= j < i + 1 implies #[trigger] mem.word_log().contains_key(
                gdt_slot(j),
            ) && mem.word_log()[gdt_slot(j)] == table@[j] by {
                if j < i {
                    assert(mp.word_log().contains_key(gdt_slot(j)) && mp.word_log()[gdt_slot(j)]
                        == table@[j]);
                    assert(gdt_slot(j) != addr);
                }
            }
        }
        i = i + 1;
    }
    Ok(())
}

/// Writes `val` as the boot IDT stub at its fixed address.  Fails
/// exactly when the eight bytes do not fit below the end of guest RAM.
pub fn write_idt_value(val: u64, mem: &mut GuestRam) -> (r: Result<(), BootError>)
    ensures
        final(mem).spec_size() == old(mem).spec_size(),
        r is Ok <==> layout::BOOT_IDT_OFFSET + 8 <= old(mem).spec_size(),
        r is Ok ==> final(mem).word_log() == old(mem).word_log().insert(
            layout::BOOT_IDT_OFFSET,
            val,
        ),
        r is Err ==> final(mem).word_log() == old(mem).word_log(),
{
    if mem.write_u64(layout::BOOT_IDT_OFFSET, val) {
        Ok(())
    } else {
        Err(BootError::MemWrite)
    }
}

/// Writes the boot GDT and the zeroed IDT stub into guest memory and
/// sets the segment registers for 64-bit protected mode: flat code and
/// data segments, the TSS, the two table registers, and the
/// protected-mode and long-mode bits of CR0 and EFER.
///
/// Fails, leaving the register model unchanged, exactly when the tables
/// do not fit below the end of guest RAM.
pub fn configure_segments_and_sregs(mem: &mut GuestRam, sregs: &mut Sregs) -> (r: Result<
    (),
    BootError,
>)
    ensures
        final(mem).spec_size() == old(mem).spec_size(),
        r is Ok <==> old(mem).spec_size() >= layout::BOOT_IDT_OFFSET + 8,
        r is Err ==> *final(sregs) == *old(sregs),
        r is Ok ==> forall|i: int|
            0 <= i < 4 ==> #[trigger] final(mem).word_log().contains_key(gdt_slot(i)) && final(mem).word_log()[gdt_slot(i)] == spec_boot_gdt()[i],
        r is Ok ==> final(mem).word_log().contains_key(layout::BOOT_IDT_OFFSET) && final(mem).word_log()[layout::BOOT_IDT_OFFSET] == 0,
        r is Ok ==> forall|a: u64|
            !(layout::BOOT_GDT_OFFSET <= a < layout::BOOT_IDT_OFFSET + 8) ==> (#[trigger] final(mem).word_log().contains_key(a) <==> old(mem).word_log().contains_key(a)) && (old(mem).word_log().contains_key(a) ==> final(mem).word_log()[a] == old(mem).word_log()[a]),
        r is Ok ==> final(sregs).cs == gdt::spec_kvm_segment_from_gdt(spec_boot_gdt()[1], 1),
        r is Ok ==> final(sregs).ds == gdt::spec_kvm_segment_from_gdt(spec_boot_gdt()[2], 2),
        r is Ok ==> final(sregs).es == final(sregs).ds && final(sregs).fs == final(sregs).ds
            && final(sregs).gs == final(sregs).ds && final(sregs).ss == final(sregs).ds,
        r is Ok ==> final(sregs).tr == gdt::spec_kvm_segment_from_gdt(spec_boot_gdt()[3], 3),
        r is Ok ==> final(sregs).gdt == (DescriptorTable {
            base: layout::BOOT_GDT_OFFSET,
            limit: 31,
        }),
        r is Ok ==> final(sregs).idt == (DescriptorTable {
            base: layout::BOOT_IDT_OFFSET,
            limit: 7,
        }),
        r is Ok ==> final(sregs).cr0 == old(sregs).cr0 | X86_CR0_PE,
        r is Ok ==> final(sregs).efer == old(sregs).efer | EFER_LME | EFER_LMA,
        r is Ok ==> final(sregs).cr3 == old(sregs).cr3 && final(sregs).cr4 == old(sregs).cr4,
{
    let mut gdt_table: Vec<u64> = Vec::new();
    gdt_table.push(gdt::gdt_entry(0, 0, 0));  // NULL
    gdt_table.push(gdt::gdt_entry(0xa09b, 0, 0xfffff));  // CODE
    gdt_table.push(gdt::gdt_entry(0xc093, 0, 0xfffff));  // DATA
    gdt_table.push(gdt::gdt_entry(0x808b, 0, 0xfffff));  // TSS

    proof {
        assert(gdt_table@ =~= spec_boot_gdt());
    }

    let code_seg = gdt::kvm_segment_from_gdt(gdt_table[1], 1);
    let data_seg = gdt::kvm_segment_from_gdt(gdt_table[2], 2);
    let tss_seg = gdt::kvm_segment_from_gdt(gdt_table[3], 3);

    if let Err(e) = write_gdt_table(gdt_table.as_slice(), mem) {
        return Err(e);
    }

    let ghost m1 = *mem;
    if let Err(e) = write_idt_value(0, mem) {
        return Err(e);
    }

    proof {
        assert forall|a: u64| !(layout::BOOT_GDT_OFFSET <= a < layout::BOOT_IDT_OFFSET + 8)
            implies ((mem.word_log().contains_key(a) <==> old(mem).word_log().contains_key(a)) && (
        old(mem).word_log().contains_key(a) ==> mem.word_log()[a] == old(mem).word_log()[a])) by {
            assert(mem.word_log() == m1.word_log().insert(layout::BOOT_IDT_OFFSET, 0));
            assert(!(layout::BOOT_GDT_OFFSET <= a < layout::BOOT_GDT_OFFSET + 8 * 4));
            assert((m1.word_log().contains_key(a) <==> old(mem).word_log().contains_key(a)) && (old(mem).word_log().contains_key(a) ==> m1.word_log()[a] == old(mem).word_log()[a]));
        }
    }

    sregs.gdt = DescriptorTable { base: layout::BOOT_GDT_OFFSET, limit: 31 };
    sregs.idt = DescriptorTable { base: layout::BOOT_IDT_OFFSET, limit: 7 };

    sregs.cs = code_seg;
    sregs.ds = data_seg;
    sregs.es = data_seg;
    sregs.fs = data_seg;
    sregs.gs = data_seg;
    sregs.ss = data_seg;
    sregs.tr = tss_seg;

    // 64-bit protected mode
    sregs.cr0 = sregs.cr0 | X86_CR0_PE;
    sregs.efer = sregs.efer | EFER_LME | EFER_LMA;

    Ok(())
}

/// The single PML4 entry: the PDPT address with Present and Writable.
pub open spec fn spec_pml4_entry() -> u64 {
    layout::PDPTE_START | 0x03
}

/// The single PDPT entry: the PD address with Present and Writable.
pub open spec fn spec_pdpte_entry() -> u64 {
    layout::PDE_START | 0x03
}

/// Page-directory entry `i`: the 2 MiB page at `i << 21` with Present,
/// Writable and PageSize.
pub open spec fn spec_pde_entry(i: u64) -> u64 {
    (i << 21) | 0x83
}

/// The guest address of page-directory slot `i`.
pub open spec fn pde_slot(i: int) -> u64 {
    (layout::PDE_START + 8 * i) as u64
}

/// The page-table words of the boot: the PML4 and PDPT entries carry
/// Present and Writable in their low twelve bits, and every one of the
/// 512 page-directory entries maps the 2 MiB page at `i << 21` with
/// Present, Writable and PageSize.
pub proof fn lemma_boot_page_tables()
    ensures
        spec_pml4_entry() & 0xfff == 0x003,
        spec_pml4_entry() == layout::PDPTE_START + 0x003,
        spec_pdpte_entry() & 0xfff == 0x003,
        spec_pdpte_entry() == layout::PDE_START + 0x003,
        forall|i: u64| i < 512 ==> #[trigger] spec_pde_entry(i) & 0xfff == 0x083,
        forall|i: u64| i < 512 ==> #[trigger] spec_pde_entry(i) >> 21 == i,
{
    assert(0xa000u64 | 0x03 == 0xa003 && 0xb000u64 | 0x03 == 0xb003 && 0xa003u64 & 0xfff == 0x003
        && 0xb003u64 & 0xfff == 0x003) by (bit_vector);
    assert forall|i: u64| i < 512 implies #[trigger] spec_pde_entry(i) & 0xfff == 0x083 && spec_pde_entry(
        i,
    ) >> 21 == i by {
        assert(i < 512 ==> ((i << 21) | 0x83) & 0xfff == 0x083 && ((i << 21) | 0x83) >> 21 == i)
            by (bit_vector);
    }
}

/// Writes the identity page tables into guest memory — one PML4 entry,
/// one PDPT entry, and 512 2 MiB page-directory entries covering
/// `[0, 1 GiB)` — and points CR3 at them, enabling PAE in CR4 and
/// paging in CR0.
///
/// Fails, leaving the register model unchanged, exactly when the
/// tables do not fit below the end of guest RAM.
pub fn setup_page_tables(mem: &mut GuestRam, sregs: &mut Sregs) -> (r: Result<(), BootError>)
    ensures
        final(mem).spec_size() == old(mem).spec_size(),
        r is Ok <==> old(mem).spec_size() >= layout::PDE_START + 0x1000,
        r is Err ==> *final(sregs) == *old(sregs),
        r is Ok ==> final(mem).word_log().contains_key(layout::PML4_START) && final(mem).word_log()[layout::PML4_START] == spec_pml4_entry(),
        r is Ok ==> final(mem).word_log().contains_key(layout::PDPTE_START) && final(mem).word_log()[layout::PDPTE_START] == spec_pdpte_entry(),
        r is Ok ==> forall|i: int|
            0 <= i < 512 ==> #[trigger] final(mem).word_log().contains_key(pde_slot(i)),
        r is Ok ==> forall|i: int|
            0 <= i < 512 ==> #[trigger] final(mem).word_log()[pde_slot(i)] == spec_pde_entry(
                i as u64,
            ),
        r is Ok ==> forall|a: u64|
            !(layout::PML4_START <= a < layout::PDE_START + 0x1000) ==> (#[trigger] final(mem).word_log().contains_key(a) <==> old(mem).word_log().contains_key(a)) && (old(mem).word_log().contains_key(a) ==> final(mem).word_log()[a] == old(mem).word_log()[a]),
        r is Ok ==> final(sregs).cr3 == layout::PML4_START,
        r is Ok ==> final(sregs).cr4 == old(sregs).cr4 | X86_CR4_PAE,
        r is Ok ==> final(sregs).cr0 == old(sregs).cr0 | X86_CR0_PG,
        r is Ok ==> final(sregs).cs == old(sregs).cs && final(sregs).ds == old(sregs).ds && final(sregs).es == old(sregs).es && final(sregs).fs == old(sregs).fs && final(sregs).gs == old(sregs).gs && final(sregs).ss == old(sregs).ss && final(sregs).tr == old(sregs).tr && final(sregs).gdt == old(sregs).gdt && final(sregs).idt == old(sregs).idt && final(sregs).efer == old(sregs).efer,
{
    // Entry covering VA [0..512GB)
    if !mem.write_u64(layout::PML4_START, layout::PDPTE_START | 0x03) {
        return Err(BootError::MemWrite);
    }

    // Entry covering VA [0..1GB)
    if !mem.write_u64(layout::PDPTE_START, layout::PDE_START | 0x03) {
        return Err(BootError::MemWrite);
    }

    // 512 2 MiB entries together covering VA [0..1GB).
    let mut i: u64 = 0;
    while i < 512
        invariant
            i <= 512,
            mem.spec_size() == old(mem).spec_size(),
            old(mem).spec_size() >= layout::PDPTE_START + 8,
            mem.word_log().contains_key(layout::PML4_START) && mem.word_log()[layout::PML4_START]
                == spec_pml4_entry(),
            mem.word_log().contains_key(layout::PDPTE_START) && mem.word_log()[layout::PDPTE_START]
                == spec_pdpte_entry(),
            i > 0 ==> old(mem).spec_size() >= layout::PDE_START + 8 * i,
            forall|j: int| 0 <= j < i ==> #[trigger] mem.word_log().contains_key(pde_slot(j)),
            forall|j: int|
                0 <= j < i ==> #[trigger] mem.word_log()[pde_slot(j)] == spec_pde_entry(j as u64),
            forall|a: u64|
                !(layout::PML4_START <= a < layout::PDE_START + 8 * i) ==> (
                #[trigger] mem.word_log().contains_key(a) <==> old(mem).word_log().contains_key(a))
                    && (old(mem).word_log().contains_key(a) ==> mem.word_log()[a] == old(mem).word_log()[a]),
        decreases 512 - i,
    {
        proof {
            assert(i < 512 ==> (i << 21) <= 0x3fe0_0000 && ((i << 21) + 0x83u64) == ((i << 21)
                | 0x83u64)) by (bit_vector);
        }
        let ghost mp = *mem;
        let entry: u64 = (i << 21) + 0x83;
        let addr: u64 = layout::PDE_START + i * 8;
        if !mem.write_u64(addr, entry) {
            return Err(BootError::MemWrite);
        }
        proof {
            assert(pde_slot(i as int) == addr);
            assert(mem.word_log() == mp.word_log().insert(addr, entry));
            assert forall|a: u64|
                !(layout::PML4_START <= a < layout::PDE_START + 8 * (i + 1)) implies ((
            #[trigger] mem.word_log().contains_key(a) <==> old(mem).word_log().contains_key(a)) && (
            old(mem).word_log().contains_key(a) ==> mem.word_log()[a] == old(mem).word_log()[a])) by {
                assert(a != addr);
                assert(!(layout::PML4_START <= a < layout::PDE_START + 8 * i));
                assert(mp.word_log().contains_key(a) <==> old(mem).word_log().contains_key(a));
                assert(old(mem).word_log().contains_key(a) ==> mp.word_log()[a] == old(
                    mem,
                ).word_log()[a]);
            }
            assert forall|j: int| 0 <= j < i + 1 implies #[trigger] mem.word_log().contains_key(
                pde_slot(j),
            ) && mem.word_log()[pde_slot(j)] == spec_pde_entry(j as u64) by {
                if j < i {
                    assert(mp.word_log().contains_key(pde_slot(j)) && mp.word_log()[pde_slot(j)]
                        == spec_pde_entry(j as u64));
                    assert(pde_slot(j) != addr);
                }
            }
        }
        i = i + 1;
    }

    sregs.cr3 = layout::PML4_START;
    sregs.cr4 = sregs.cr4 | X86_CR4_PAE;
    sregs.cr0 = sregs.cr0 | X86_CR0_PG;

    Ok(())
}

} // verus!
