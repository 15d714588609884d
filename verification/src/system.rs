//! The Linux zero page: header fields, the E820 memory map, the initrd
//! placement and the command-line load.

use vstd::prelude::*;

use crate::config::BootSourceConfig;
use crate::config::ConfigError;
use crate::config::spec_cmdline_bytes;
use crate::layout;
use crate::mem::GuestRam;

verus! {

/// E820 type of usable normal RAM.
pub const E820_RAM: u32 = 1;

/// E820 type of a reserved area avoided during memory allocations.
pub const E820_RESERVED: u32 = 2;

/// Start of the extended BIOS data area: the last 1 KiB of the first
/// 640 KiB of memory.
pub const EBDA_START: u64 = 0x9fc00;

/// Size of the extended BIOS data area.
pub const EBDA_SIZE: u64 = 0x400;

/// The first address past the 32-bit space.
pub const FIRST_ADDR_PAST_32BITS: u64 = 0x1_0000_0000;

/// Size of the MMIO gap at the top of the 32-bit address space: 768 MiB.
pub const MEM_32BIT_GAP_SIZE: u64 = 0x3000_0000;

/// The start of the memory area reserved for MMIO devices.
pub const MMIO_MEM_START: u64 = 0xc000_0000;

/// Capacity of the zero page's fixed E820 table.
pub const E820_MAX_ENTRIES: usize = 128;

/// Why boot construction failed.
#[derive(Clone, Copy, Debug, PartialEq, Eq, Structural)]
pub enum BootError {
    /// The kernel command line was refused.
    Cmdline(ConfigError),
    /// The command line does not fit below the end of guest RAM.
    CmdlineOutOfBounds,
    /// The fixed E820 table is full.
    E820Full,
    /// A zero-page field was handed a value wider than its width.
    ValueTooWide,
    /// The initrd does not fit in guest RAM.
    InitrdTooBig,
    /// A table write landed outside guest RAM.
    MemWrite,
}

/// One E820 entry: `{addr, size, type}` as the Linux boot protocol lays
/// it out.
#[derive(Clone, Copy, Debug, PartialEq, Eq, Structural)]
pub struct E820Entry {
    pub addr: u64,
    pub size: u64,
    pub type_: u32,
}

/// The zero-page fields this monitor sets, with the E820 table as a
/// growable list; its entry count is the list's length.
#[derive(Debug)]
pub struct BootParams {
    pub type_of_loader: u8,
    pub boot_flag: u16,
    pub header: u32,
    pub cmd_line_ptr: u32,
    pub cmdline_size: u32,
    pub kernel_alignment: u32,
    pub ramdisk_image: u32,
    pub ramdisk_size: u32,
    pub e820_table: Vec<E820Entry>,
}

/// Information about the initrd placed in guest memory.
#[derive(Clone, Copy, Debug, PartialEq, Eq, Structural)]
pub struct InitrdConfig {
    /// Load address of the initrd in guest memory.
    pub address: u64,
    /// Size of the initrd in guest memory.
    pub size: usize,
}

/// The zero-page header fields other than the E820 table are the same
/// in `a` and `b`.
pub open spec fn same_header(a: &BootParams, b: &BootParams) -> bool {
    &&& a.type_of_loader == b.type_of_loader
    &&& a.boot_flag == b.boot_flag
    &&& a.header == b.header
    &&& a.cmd_line_ptr == b.cmd_line_ptr
    &&& a.cmdline_size == b.cmdline_size
    &&& a.kernel_alignment == b.kernel_alignment
    &&& a.ramdisk_image == b.ramdisk_image
    &&& a.ramdisk_size == b.ramdisk_size
}

/// Adds an E820 region to the E820 map.  Fails, leaving the map
/// unchanged, exactly when there is no space left in the fixed table.
pub fn add_e820_entry(params: &mut BootParams, addr: u64, size: u64, mem_type: u32) -> (r: Result<
    (),
    BootError,
>)
    ensures
        same_header(old(params), final(params)),
        r is Ok <==> old(params).e820_table@.len() < E820_MAX_ENTRIES,
        r matches Err(BootError::E820Full) <==> old(params).e820_table@.len() >= E820_MAX_ENTRIES,
        r is Ok ==> final(params).e820_table@ =~= old(params).e820_table@.push(
            (E820Entry { addr, size, type_: mem_type }),
        ),
        r is Err ==> final(params).e820_table@ == old(params).e820_table@,
{
    if params.e820_table.len() >= E820_MAX_ENTRIES {
        return Err(BootError::E820Full);
    }
    params.e820_table.push(E820Entry { addr, size, type_: mem_type });
    Ok(())
}

/// The E820 map of a boot with `ram_size` bytes of RAM: low RAM up to
/// the EBDA, the reserved EBDA itself, and high RAM from the kernel
/// start, split around the 32-bit MMIO gap when RAM reaches it.
pub open spec fn spec_e820_map(ram_size: u64) -> Seq<E820Entry> {
    let last_addr = ram_size - 1;
    let low = seq![
        (E820Entry { addr: 0, size: EBDA_START, type_: E820_RAM }),
        (E820Entry { addr: EBDA_START, size: EBDA_SIZE, type_: E820_RESERVED }),
    ];
    if last_addr < MMIO_MEM_START {
        low.push(
            (E820Entry {
                addr: layout::KERNEL_START_ADDRESS,
                size: (last_addr - layout::KERNEL_START_ADDRESS + 1) as u64,
                type_: E820_RAM,
            }),
        )
    } else {
        let with_gap = low.push(
            (E820Entry {
                addr: layout::KERNEL_START_ADDRESS,
                size: (MMIO_MEM_START - layout::KERNEL_START_ADDRESS) as u64,
                type_: E820_RAM,
            }),
        );
        if last_addr > FIRST_ADDR_PAST_32BITS {
            with_gap.push(
                (E820Entry {
                    addr: FIRST_ADDR_PAST_32BITS,
                    size: (last_addr - FIRST_ADDR_PAST_32BITS + 1) as u64,
                    type_: E820_RAM,
                }),
            )
        } else {
            with_gap
        }
    }
}

/// The E820 map is monotonically increasing in `addr`, its entries do
/// not overlap, and it holds exactly one `RESERVED` entry: the EBDA at
/// `[0x9fc00, 0xa0000)`.
pub proof fn lemma_e820_map_well_formed(ram_size: u64)
    requires
        ram_size > layout::KERNEL_START_ADDRESS,
    ensures
        forall|i: int, j: int|
            0 <= i < j < spec_e820_map(ram_size).len() ==> (#[trigger] spec_e820_map(ram_size)[i]).addr
                + spec_e820_map(ram_size)[i].size <= (#[trigger] spec_e820_map(ram_size)[j]).addr,
        forall|i: int, j: int|
            0 <= i < j < spec_e820_map(ram_size).len() ==> (#[trigger] spec_e820_map(ram_size)[i]).addr
                < (#[trigger] spec_e820_map(ram_size)[j]).addr,
        spec_e820_map(ram_size)[1] == (E820Entry {
            addr: EBDA_START,
            size: EBDA_SIZE,
            type_: E820_RESERVED,
        }),
        forall|i: int|
            0 <= i < spec_e820_map(ram_size).len() && i != 1 ==> (#[trigger] spec_e820_map(
                ram_size,
            )[i]).type_ == E820_RAM,
{
}

/// Builds the zero page of a boot: the header fields the Linux boot
/// protocol requires, the command-line pointer and size, the initrd
/// location if one was loaded, and the E820 map of `mem`.
///
/// Fails exactly when a value does not fit the 32-bit zero-page field
/// that carries it.
pub fn configure_system(
    ram_size: u64,
    cmdline_addr: u64,
    cmdline_size: usize,
    initrd: &Option<InitrdConfig>,
) -> (r: Result<BootParams, BootError>)
    requires
        ram_size > layout::KERNEL_START_ADDRESS,
    ensures
        r is Ok <==> (cmdline_addr <= u32::MAX && cmdline_size <= u32::MAX && (initrd is Some
            ==> initrd->0.address <= u32::MAX && initrd->0.size <= u32::MAX)),
        r is Err ==> r->Err_0 == BootError::ValueTooWide,
        r is Ok ==> r->Ok_0.type_of_loader == 0xff,
        r is Ok ==> r->Ok_0.boot_flag == 0xaa55,
        r is Ok ==> r->Ok_0.header == 0x5372_6448,
        r is Ok ==> r->Ok_0.cmd_line_ptr == cmdline_addr,
        r is Ok ==> r->Ok_0.cmdline_size == cmdline_size,
        r is Ok ==> r->Ok_0.kernel_alignment == 0x0100_0000,
        r is Ok ==> r->Ok_0.ramdisk_image == (if initrd is Some {
            initrd->0.address
        } else {
            0
        }),
        r is Ok ==> r->Ok_0.ramdisk_size == (if initrd is Some {
            initrd->0.size as u64
        } else {
            0
        }),
        r is Ok ==> r->Ok_0.e820_table@ =~= spec_e820_map(ram_size),
{
    let mut params = BootParams {
        type_of_loader: 0xff,
        boot_flag: 0xaa55,
        header: 0x5372_6448,
        cmd_line_ptr: 0,
        cmdline_size: 0,
        kernel_alignment: 0x0100_0000,
        ramdisk_image: 0,
        ramdisk_size: 0,
        e820_table: Vec::new(),
    };

    if cmdline_addr > 0xffff_ffff {
        return Err(BootError::ValueTooWide);
    }
    params.cmd_line_ptr = cmdline_addr as u32;

    if cmdline_size > 0xffff_ffff {
        return Err(BootError::ValueTooWide);
    }
    params.cmdline_size = cmdline_size as u32;

    if let Some(initrd_config) = initrd {
        if initrd_config.address > 0xffff_ffff {
            return Err(BootError::ValueTooWide);
        }
        params.ramdisk_image = initrd_config.address as u32;
        if initrd_config.size > 0xffff_ffff {
            return Err(BootError::ValueTooWide);
        }
        params.ramdisk_size = initrd_config.size as u32;
    }

    let r1 = add_e820_entry(&mut params, 0, EBDA_START, E820_RAM);
    proof {
        assert(r1 is Ok);
    }
    let r2 = add_e820_entry(&mut params, EBDA_START, EBDA_SIZE, E820_RESERVED);
    proof {
        assert(r2 is Ok);
    }

    let last_addr: u64 = ram_size - 1;
    if last_addr < MMIO_MEM_START {
        let r3 = add_e820_entry(
            &mut params,
            layout::KERNEL_START_ADDRESS,
            last_addr - layout::KERNEL_START_ADDRESS + 1,
            E820_RAM,
        );
        proof {
            assert(r3 is Ok);
        }
    } else {
        let r3 = add_e820_entry(
            &mut params,
            layout::KERNEL_START_ADDRESS,
            MMIO_MEM_START - layout::KERNEL_START_ADDRESS,
            E820_RAM,
        );
        proof {
            assert(r3 is Ok);
        }
        if last_addr > FIRST_ADDR_PAST_32BITS {
            let r4 = add_e820_entry(
                &mut params,
                FIRST_ADDR_PAST_32BITS,
                last_addr - FIRST_ADDR_PAST_32BITS + 1,
                E820_RAM,
            );
            proof {
                assert(r4 is Ok);
            }
        }
    }

    Ok(params)
}

/// The page-aligned address as high in the first memory region as the
/// initrd fits: `(ram_size - initrd_size)` rounded down to a page.
pub open spec fn spec_initrd_addr(ram_size: u64, initrd_size: usize) -> u64 {
    ((ram_size - initrd_size) as u64) & !((layout::PAGE_SIZE - 1) as u64)
}

/// Returns the guest address where the initrd is to be loaded: page
/// aligned, as high as it fits.  Fails exactly when the initrd is
/// larger than the region.
///
/// On success the address leaves room for the whole initrd below the
/// end of RAM and lies within one page of the highest such position.
pub fn initrd_load_addr(mem: &GuestRam, initrd_size: usize) -> (r: Result<u64, BootError>)
    ensures
        r is Ok <==> initrd_size <= mem.spec_size(),
        r matches Err(BootError::InitrdTooBig) <==> initrd_size > mem.spec_size(),
        r is Ok ==> r->Ok_0 == spec_initrd_addr(mem.spec_size(), initrd_size),
        r is Ok ==> r->Ok_0 as int % layout::PAGE_SIZE as int == 0,
        r is Ok ==> r->Ok_0 + initrd_size <= mem.spec_size(),
        r is Ok ==> r->Ok_0 + initrd_size + layout::PAGE_SIZE > mem.spec_size(),
{
    let lowmem_size: u64 = mem.size();
    if lowmem_size < initrd_size as u64 {
        return Err(BootError::InitrdTooBig);
    }
    let addr: u64 = (lowmem_size - initrd_size as u64) & !((layout::PAGE_SIZE - 1) as u64);
    proof {
        let gap = (mem.spec_size() - initrd_size) as u64;
        assert(addr % 4096 == 0 && addr <= gap && gap < addr + 4096) by (bit_vector)
            requires
                addr == gap & !0xfffu64,
        ;
    }
    Ok(addr)
}

/// Loads the NUL-terminated kernel command line at its fixed guest
/// address.  Returns that address and the loaded byte count.
///
/// Fails exactly when the command line itself is refused or the bytes
/// do not fit below the end of guest RAM.
pub fn load_boot_cmdline(mem: &mut GuestRam, boot_source_cfg: &BootSourceConfig) -> (r: Result<
    (u64, usize),
    BootError,
>)
    ensures
        final(mem).spec_size() == old(mem).spec_size(),
        final(mem).word_log() == old(mem).word_log(),
        r is Ok <==> (spec_cmdline_bytes(boot_source_cfg).len() + 1 <= layout::CMDLINE_MAX_SIZE
            && !spec_cmdline_bytes(boot_source_cfg).contains(0u8) && layout::CMDLINE_START
            + spec_cmdline_bytes(boot_source_cfg).len() + 1 <= old(mem).spec_size()),
        r is Ok ==> (r->Ok_0).0 == layout::CMDLINE_START,
        r is Ok ==> (r->Ok_0).1 == spec_cmdline_bytes(boot_source_cfg).len() + 1,
{
    let (cmdline_bytes, cmdline_size) = match boot_source_cfg.to_kernel_cmdline() {
        Ok(c) => c,
        Err(e) => {
            return Err(BootError::Cmdline(e));
        },
    };

    if !mem.write_bytes(layout::CMDLINE_START, cmdline_bytes.as_slice()) {
        return Err(BootError::CmdlineOutOfBounds);
    }

    Ok((layout::CMDLINE_START, cmdline_size))
}

} // verus!
