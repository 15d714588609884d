use kvm_box::cpuid::mask_cpuid;
use kvm_box::cpuid::CpuidEntry;
use kvm_box::gdt::SegmentRegister;
use kvm_box::mem::GuestRam;
use kvm_box::regs::boot_fpu;
use kvm_box::regs::boot_regs;
use kvm_box::regs::configure_segments_and_sregs;
use kvm_box::regs::setup_page_tables;
use kvm_box::regs::DescriptorTable;
use kvm_box::regs::Sregs;
use kvm_box::runner::handle_host_token;
use kvm_box::runner::handle_vcpu_exit;
use kvm_box::runner::HostAction;
use kvm_box::runner::VcpuAction;
use kvm_box::runner::VcpuEvent;
use kvm_box::serial::serial_byte_offset;
use kvm_box::system::BootError;

fn zero_segment() -> SegmentRegister {
    SegmentRegister {
        base: 0,
        limit: 0,
        selector: 0,
        type_: 0,
        present: 0,
        dpl: 0,
        db: 0,
        s: 0,
        l: 0,
        g: 0,
        avl: 0,
        padding: 0,
        unusable: 0,
    }
}

fn zero_sregs() -> Sregs {
    Sregs {
        cs: zero_segment(),
        ds: zero_segment(),
        es: zero_segment(),
        fs: zero_segment(),
        gs: zero_segment(),
        ss: zero_segment(),
        tr: zero_segment(),
        gdt: DescriptorTable { base: 0, limit: 0 },
        idt: DescriptorTable { base: 0, limit: 0 },
        cr0: 0,
        cr3: 0,
        cr4: 0,
        efer: 0,
    }
}

#[test]
fn boot_registers() {
    let regs = boot_regs(0x10_0000);
    assert_eq!(regs.rflags, 2);
    assert_eq!(regs.rip, 0x10_0000);
    assert_eq!(regs.rsp, 0x8ff0);
    assert_eq!(regs.rbp, 0x8ff0);
    assert_eq!(regs.rsi, 0x7000);

    let fpu = boot_fpu();
    assert_eq!(fpu.fcw, 0x37f);
    assert_eq!(fpu.mxcsr, 0x1f80);
}

#[test]
fn segments_for_long_mode() {
    let mut mem = GuestRam::create(0x1000).unwrap();
    let mut sregs = zero_sregs();
    configure_segments_and_sregs(&mut mem, &mut sregs).unwrap();

    assert_eq!(sregs.cs.base, 0);
    assert_eq!(sregs.cs.limit, 0xfffff);
    assert_eq!(sregs.cs.selector, 0x08);
    assert_eq!(sregs.cs.type_, 0xb);
    assert_eq!(sregs.cs.l, 1);
    assert_eq!(sregs.cs.g, 1);
    assert_eq!(sregs.ds.selector, 0x10);
    assert_eq!(sregs.ds, sregs.es);
    assert_eq!(sregs.ds, sregs.ss);
    assert_eq!(sregs.tr.selector, 0x18);
    assert_eq!(sregs.gdt, DescriptorTable { base: 0x500, limit: 31 });
    assert_eq!(sregs.idt, DescriptorTable { base: 0x520, limit: 7 });
    assert_eq!(sregs.cr0 & 0x1, 0x1);
    assert_eq!(sregs.efer & 0x500, 0x500);
}

#[test]
fn segments_need_low_memory() {
    let mut mem = GuestRam::create(0x500).unwrap();
    let mut sregs = zero_sregs();
    assert_eq!(
        configure_segments_and_sregs(&mut mem, &mut sregs),
        Err(BootError::MemWrite)
    );
    assert_eq!(sregs, zero_sregs());
}

#[test]
fn page_tables_enable_paging() {
    let mut mem = GuestRam::create(0xc000).unwrap();
    let mut sregs = zero_sregs();
    setup_page_tables(&mut mem, &mut sregs).unwrap();

    assert_eq!(sregs.cr3, 0x9000);
    assert_eq!(sregs.cr4 & 0x20, 0x20);
    assert_eq!(sregs.cr0 & 0x8000_0000, 0x8000_0000);
}

#[test]
fn page_tables_need_low_memory() {
    let mut mem = GuestRam::create(0xb000).unwrap();
    let mut sregs = zero_sregs();
    assert_eq!(setup_page_tables(&mut mem, &mut sregs), Err(BootError::MemWrite));
    assert_eq!(sregs, zero_sregs());
}

#[test]
fn guest_ram_write_bounds() {
    let mut mem = GuestRam::create(0x1000).unwrap();
    assert_eq!(mem.size(), 0x1000);
    assert!(mem.write_u64(0, 0xdead_beef));
    assert!(mem.write_u64(0xff8, 1));
    assert!(!mem.write_u64(0xffc, 1));
    assert!(!mem.write_u64(0x1000, 1));
    assert!(mem.write_bytes(0xffe, &[1, 2]));
    assert!(!mem.write_bytes(0xfff, &[1, 2]));
}

#[test]
fn cpuid_signature_leaf_is_masked() {
    let entry = |function: u32| CpuidEntry {
        function,
        index: 0,
        flags: 0,
        eax: 0x11,
        ebx: 0x22,
        ecx: 0x33,
        edx: 0x44,
    };
    let mut entries = vec![entry(0), entry(0x4000_0000), entry(0x8000_0000)];
    mask_cpuid(&mut entries);

    assert_eq!(entries[0], entry(0));
    assert_eq!(entries[2], entry(0x8000_0000));
    assert_eq!(entries[1].eax, 0x4000_0001);
    assert_eq!(entries[1].ebx, 0x4b4d_564b);
    assert_eq!(entries[1].ecx, 0x564b_4d56);
    assert_eq!(entries[1].edx, 0x4d);
}

#[test]
fn vcpu_exit_actions() {
    assert_eq!(handle_vcpu_exit(&VcpuEvent::IoIn), VcpuAction::BusRead);
    assert_eq!(handle_vcpu_exit(&VcpuEvent::IoOut), VcpuAction::BusWrite);
    assert_eq!(handle_vcpu_exit(&VcpuEvent::MmioRead), VcpuAction::LogAndContinue);
    assert_eq!(handle_vcpu_exit(&VcpuEvent::MmioWrite), VcpuAction::LogAndContinue);
    assert_eq!(handle_vcpu_exit(&VcpuEvent::Hlt), VcpuAction::Stop);
    assert_eq!(handle_vcpu_exit(&VcpuEvent::Shutdown), VcpuAction::Stop);
    assert_eq!(handle_vcpu_exit(&VcpuEvent::Unsupported), VcpuAction::Stop);
    assert_eq!(handle_vcpu_exit(&VcpuEvent::RunError), VcpuAction::Stop);
}

#[test]
fn host_tokens() {
    assert_eq!(handle_host_token(0), Some(HostAction::Finish));
    assert_eq!(handle_host_token(1), Some(HostAction::FeedSerial));
    assert_eq!(handle_host_token(2), None);
}

#[test]
fn serial_accepts_only_byte_accesses() {
    assert_eq!(serial_byte_offset(0, 1), Some(0));
    assert_eq!(serial_byte_offset(7, 1), Some(7));
    assert_eq!(serial_byte_offset(255, 1), Some(255));
    assert_eq!(serial_byte_offset(256, 1), None);
    assert_eq!(serial_byte_offset(0, 2), None);
    assert_eq!(serial_byte_offset(0, 0), None);
}
