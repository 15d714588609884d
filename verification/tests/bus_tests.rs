use kvm_box::bus::Bus;
use kvm_box::bus::BusError;
use kvm_box::port_io::assemble_io_bus;

#[test]
fn bus_happy_path() {
    // Insert the console serial at 0x3f8 with length 8.
    let mut bus: Bus<u32> = Bus::new();
    assert!(bus.insert(7, 0x3f8, 8).is_ok());

    let (offset, dev) = bus.get_device(0x3f8).unwrap();
    assert_eq!(offset, 0);
    assert_eq!(*dev, 7);

    let (offset, dev) = bus.get_device(0x3ff).unwrap();
    assert_eq!(offset, 7);
    assert_eq!(*dev, 7);

    assert!(bus.get_device(0x400).is_none());
    assert!(bus.get_device(0x3f7).is_none());
}

#[test]
fn bus_overlap_detection() {
    let mut bus: Bus<u32> = Bus::new();
    assert!(bus.insert(1, 0x100, 0x10).is_ok());

    assert_eq!(bus.insert(2, 0x108, 0x10), Err(BusError::Overlap));
    assert_eq!(bus.insert(3, 0x0f0, 0x20), Err(BusError::Overlap));
    assert!(bus.insert(4, 0x110, 0x10).is_ok());

    // The failed insertions left the bus unchanged: the range that the
    // second attempt would have covered past 0x110 belongs to device 4.
    let (offset, dev) = bus.get_device(0x117).unwrap();
    assert_eq!(offset, 7);
    assert_eq!(*dev, 4);
}

#[test]
fn bus_zero_length_rejected() {
    let mut bus: Bus<u32> = Bus::new();
    assert_eq!(bus.insert(1, 0x100, 0), Err(BusError::ZeroSizedRange));
    assert!(bus.get_device(0x100).is_none());
}

#[test]
fn bus_duplicate_base_rejected() {
    let mut bus: Bus<u32> = Bus::new();
    assert!(bus.insert(1, 0x200, 4).is_ok());
    assert_eq!(bus.insert(2, 0x200, 4), Err(BusError::Overlap));
    let (_, dev) = bus.get_device(0x200).unwrap();
    assert_eq!(*dev, 1);
}

#[test]
fn io_bus_holds_all_four_com_ports() {
    let bus = assemble_io_bus(1u32, 2u32, 3u32, 4u32);

    let (offset, dev) = bus.get_device(0x3f8).unwrap();
    assert_eq!((offset, *dev), (0, 1));
    let (offset, dev) = bus.get_device(0x2f8).unwrap();
    assert_eq!((offset, *dev), (0, 2));
    let (offset, dev) = bus.get_device(0x3e8).unwrap();
    assert_eq!((offset, *dev), (0, 3));
    let (offset, dev) = bus.get_device(0x2ef).unwrap();
    assert_eq!((offset, *dev), (7, 4));

    assert!(bus.get_device(0x2e7).is_none());
    assert!(bus.get_device(0x300).is_none());
    assert!(bus.get_device(0x400).is_none());
}
