use kvm_box::config::BootSourceConfig;
use kvm_box::config::ConfigError;
use kvm_box::gdt::gdt_entry;
use kvm_box::gdt::get_avl;
use kvm_box::gdt::get_base;
use kvm_box::gdt::get_db;
use kvm_box::gdt::get_dpl;
use kvm_box::gdt::get_g;
use kvm_box::gdt::get_l;
use kvm_box::gdt::get_limit;
use kvm_box::gdt::get_p;
use kvm_box::gdt::get_s;
use kvm_box::gdt::get_type;
use kvm_box::gdt::kvm_segment_from_gdt;
use kvm_box::mem::GuestRam;
use kvm_box::system::add_e820_entry;
use kvm_box::system::configure_system;
use kvm_box::system::initrd_load_addr;
use kvm_box::system::load_boot_cmdline;
use kvm_box::system::BootError;
use kvm_box::system::BootParams;
use kvm_box::system::InitrdConfig;
use kvm_box::system::E820_RAM;
use kvm_box::system::E820_RESERVED;

fn empty_params() -> BootParams {
    BootParams {
        type_of_loader: 0,
        boot_flag: 0,
        header: 0,
        cmd_line_ptr: 0,
        cmdline_size: 0,
        kernel_alignment: 0,
        ramdisk_image: 0,
        ramdisk_size: 0,
        e820_table: Vec::new(),
    }
}

#[test]
fn gdt_code_segment_decodes() {
    let entry = gdt_entry(0xa09b, 0, 0xfffff);
    assert_eq!(get_base(entry), 0);
    assert_eq!(get_limit(entry), 0xfffff);
    assert_eq!(get_type(entry), 0xb);
    assert_eq!(get_s(entry), 1);
    assert_eq!(get_dpl(entry), 0);
    assert_eq!(get_p(entry), 1);
    assert_eq!(get_l(entry), 1);
    assert_eq!(get_db(entry), 0);
    assert_eq!(get_g(entry), 1);
    assert_eq!(get_avl(entry), 0);
}

#[test]
fn gdt_round_trip_with_base_and_selector() {
    let entry = gdt_entry(0xc093, 0x1234_5678, 0xabcde);
    let seg = kvm_segment_from_gdt(entry, 2);
    assert_eq!(seg.base, 0x1234_5678);
    assert_eq!(seg.limit, 0xabcde);
    assert_eq!(seg.selector, 16);
    assert_eq!(seg.type_, 0x3);
    assert_eq!(seg.s, 1);
    assert_eq!(seg.dpl, 0);
    assert_eq!(seg.present, 1);
    assert_eq!(seg.db, 1);
    assert_eq!(seg.g, 1);
    assert_eq!(seg.unusable, 0);
}

#[test]
fn gdt_absent_segment_is_unusable() {
    // Flags 0: the present bit is clear.
    let seg = kvm_segment_from_gdt(gdt_entry(0, 0, 0), 0);
    assert_eq!(seg.present, 0);
    assert_eq!(seg.unusable, 1);
}

#[test]
fn initrd_placement() {
    let mem = GuestRam::create(0x8000_0000).unwrap();
    let addr = initrd_load_addr(&mem, 0x10_0000).unwrap();
    assert_eq!(addr, 0x7ff0_0000);
}

#[test]
fn initrd_placement_is_page_aligned_and_high() {
    let mem = GuestRam::create(0x10_0000).unwrap();
    let size: usize = 0x1234;
    let addr = initrd_load_addr(&mem, size).unwrap();
    assert_eq!(addr % 4096, 0);
    assert!(addr + size as u64 <= 0x10_0000);
    assert!(addr + size as u64 + 4096 > 0x10_0000);
}

#[test]
fn initrd_too_big_is_rejected() {
    let mem = GuestRam::create(0x1000).unwrap();
    assert_eq!(initrd_load_addr(&mem, 0x2000), Err(BootError::InitrdTooBig));
}

#[test]
fn e820_below_mmio_gap() {
    // 2 GiB of RAM: the last address 0x7fff_ffff is below the gap, so
    // one high RAM entry covers [0x10_0000, 0x8000_0000).
    let params = configure_system(0x8000_0000, 0x20000, 62, &None).unwrap();

    assert_eq!(params.e820_table.len(), 3);
    let e = &params.e820_table;
    assert_eq!((e[0].addr, e[0].size, e[0].type_), (0, 0x9fc00, E820_RAM));
    assert_eq!((e[1].addr, e[1].size, e[1].type_), (0x9fc00, 0x400, E820_RESERVED));
    assert_eq!((e[2].addr, e[2].size, e[2].type_), (0x10_0000, 0x7ff0_0000, E820_RAM));
}

#[test]
fn e820_split_around_mmio_gap() {
    // 5 GiB of RAM: one entry up to the gap and one past the 32-bit
    // boundary.
    let params = configure_system(0x1_4000_0000, 0x20000, 62, &None).unwrap();

    assert_eq!(params.e820_table.len(), 4);
    let e = &params.e820_table;
    assert_eq!((e[0].addr, e[0].size, e[0].type_), (0, 0x9fc00, E820_RAM));
    assert_eq!((e[1].addr, e[1].size, e[1].type_), (0x9fc00, 0x400, E820_RESERVED));
    assert_eq!((e[2].addr, e[2].size, e[2].type_), (0x10_0000, 0xbff0_0000, E820_RAM));
    assert_eq!((e[3].addr, e[3].size, e[3].type_), (0x1_0000_0000, 0x4000_0000, E820_RAM));
}

#[test]
fn e820_is_sorted_and_has_one_reserved_entry() {
    let params = configure_system(0x1_4000_0000, 0x20000, 62, &None).unwrap();
    let e = &params.e820_table;
    for w in e.windows(2) {
        assert!(w[0].addr + w[0].size <= w[1].addr);
        assert!(w[0].addr < w[1].addr);
    }
    let reserved: Vec<_> = e.iter().filter(|x| x.type_ == E820_RESERVED).collect();
    assert_eq!(reserved.len(), 1);
    assert_eq!((reserved[0].addr, reserved[0].size), (0x9fc00, 0x400));
}

#[test]
fn zero_page_header_fields() {
    let initrd = Some(InitrdConfig { address: 0x7ff0_0000, size: 0x10_0000 });
    let params = configure_system(0x8000_0000, 0x20000, 62, &initrd).unwrap();

    assert_eq!(params.type_of_loader, 0xff);
    assert_eq!(params.boot_flag, 0xaa55);
    assert_eq!(params.header, 0x5372_6448);
    assert_eq!(params.cmd_line_ptr, 0x20000);
    assert_eq!(params.cmdline_size, 62);
    assert_eq!(params.kernel_alignment, 0x0100_0000);
    assert_eq!(params.ramdisk_image, 0x7ff0_0000);
    assert_eq!(params.ramdisk_size, 0x10_0000);
}

#[test]
fn zero_page_rejects_wide_initrd_address() {
    let initrd = Some(InitrdConfig { address: 0x1_0000_0000, size: 0x1000 });
    assert!(matches!(
        configure_system(0x8000_0000, 0x20000, 62, &initrd),
        Err(BootError::ValueTooWide)
    ));
}

#[test]
fn e820_table_capacity_is_fixed() {
    let mut params = empty_params();
    for i in 0..128u64 {
        assert!(add_e820_entry(&mut params, i * 0x1000, 0x1000, E820_RAM).is_ok());
    }
    assert_eq!(
        add_e820_entry(&mut params, 0x200_0000, 0x1000, E820_RAM),
        Err(BootError::E820Full)
    );
    assert_eq!(params.e820_table.len(), 128);
}

#[test]
fn default_cmdline_builds() {
    let cfg = BootSourceConfig::default();
    let (bytes, size) = cfg.to_kernel_cmdline().unwrap();
    let expected = b"console=ttyS0 noapic noacpi reboot=k panic=1 pci=off nomodule\0";
    assert_eq!(bytes.as_slice(), expected.as_slice());
    assert_eq!(size, expected.len());
    assert_eq!(size, 62);
}

#[test]
fn custom_cmdline_builds() {
    let cfg = BootSourceConfig {
        kernel_image_path: String::new(),
        initrd_path: None,
        boot_args: Some(String::from("console=ttyS0 quiet")),
    };
    let (bytes, size) = cfg.to_kernel_cmdline().unwrap();
    assert_eq!(bytes.as_slice(), b"console=ttyS0 quiet\0".as_slice());
    assert_eq!(size, 20);
}

#[test]
fn oversized_cmdline_is_rejected() {
    let cfg = BootSourceConfig {
        kernel_image_path: String::new(),
        initrd_path: None,
        boot_args: Some("a".repeat(2048)),
    };
    assert_eq!(cfg.to_kernel_cmdline(), Err(ConfigError::CmdlineTooLong));

    let cfg = BootSourceConfig {
        kernel_image_path: String::new(),
        initrd_path: None,
        boot_args: Some("a".repeat(2047)),
    };
    let (_, size) = cfg.to_kernel_cmdline().unwrap();
    assert_eq!(size, 2048);
}

#[test]
fn cmdline_with_interior_nul_is_rejected() {
    let cfg = BootSourceConfig {
        kernel_image_path: String::new(),
        initrd_path: None,
        boot_args: Some(String::from("console=\0ttyS0")),
    };
    assert_eq!(cfg.to_kernel_cmdline(), Err(ConfigError::CmdlineInteriorNul));
}

#[test]
fn cmdline_loads_at_fixed_address() {
    let mem_result = GuestRam::create(0x30000);
    let mut mem = mem_result.unwrap();
    let cfg = BootSourceConfig::default();
    let (addr, size) = load_boot_cmdline(&mut mem, &cfg).unwrap();
    assert_eq!(addr, 0x20000);
    assert_eq!(size, 62);
}

#[test]
fn cmdline_load_respects_ram_end() {
    let mut mem = GuestRam::create(0x10000).unwrap();
    let cfg = BootSourceConfig::default();
    assert_eq!(
        load_boot_cmdline(&mut mem, &cfg),
        Err(BootError::CmdlineOutOfBounds)
    );
}

#[test]
fn cmdline_error_surfaces_in_boot_error() {
    let mut mem = GuestRam::create(0x30000).unwrap();
    let cfg = BootSourceConfig {
        kernel_image_path: String::new(),
        initrd_path: None,
        boot_args: Some(String::from("bad\0args")),
    };
    assert_eq!(
        load_boot_cmdline(&mut mem, &cfg),
        Err(BootError::Cmdline(ConfigError::CmdlineInteriorNul))
    );
}
