//! The legacy port-I/O layout: four COM ports, each with an 8-byte
//! range, and the global system interrupts their lines are routed to.

use vstd::prelude::*;

use crate::bus::Bus;
use crate::bus::BusEntry;

verus! {

/// Base port of COM1, the console serial bound to host stdio.
pub const COM1_ADDR: u64 = 0x3f8;

/// Base port of COM2; its output is discarded.
pub const COM2_ADDR: u64 = 0x2f8;

/// Base port of COM3; its output is discarded.
pub const COM3_ADDR: u64 = 0x3e8;

/// Base port of COM4; its output is discarded.
pub const COM4_ADDR: u64 = 0x2e8;

/// Size of a legacy serial port register window.
pub const SERIAL_PORT_SIZE: u64 = 0x8;

/// Global system interrupt shared by COM1 and COM3.
pub const COM_EVT_1_3_GSI: u32 = 4;

/// Global system interrupt shared by COM2 and COM4.
pub const COM_EVT_2_4_GSI: u32 = 3;

/// Global system interrupt of the keyboard port.
pub const KBD_EVT_GSI: u32 = 1;

/// Builds the port-I/O bus of the four legacy COM ports, inserting them
/// in the order COM1, COM2, COM3, COM4.  The four register windows are
/// pairwise disjoint, so every insertion succeeds and the resulting bus
/// holds exactly the four entries in base order.
pub fn assemble_io_bus<D>(com1: D, com2: D, com3: D, com4: D) -> (bus: Bus<D>)
    ensures
        bus.wf(),
        bus.entries_seq() =~= seq![
            (BusEntry { base: COM4_ADDR, len: SERIAL_PORT_SIZE, device: com4 }),
            (BusEntry { base: COM2_ADDR, len: SERIAL_PORT_SIZE, device: com2 }),
            (BusEntry { base: COM3_ADDR, len: SERIAL_PORT_SIZE, device: com3 }),
            (BusEntry { base: COM1_ADDR, len: SERIAL_PORT_SIZE, device: com1 }),
        ],
{
    let mut bus = Bus::<D>::new();

    let ghost b0 = bus;
    let r1 = bus.insert(com1, COM1_ADDR, SERIAL_PORT_SIZE);
    proof {
        assert(!b0.overlaps_existing(COM1_ADDR, SERIAL_PORT_SIZE));
        assert(r1 is Ok);
        let k = choose|k: int|
            0 <= k <= b0.entries_seq().len() && bus.entries_seq() =~= b0.entries_seq().insert(
                k,
                (BusEntry { base: COM1_ADDR, len: SERIAL_PORT_SIZE, device: com1 }),
            );
        assert(bus.entries_seq() =~= seq![
            (BusEntry { base: COM1_ADDR, len: SERIAL_PORT_SIZE, device: com1 }),
        ]);
    }

    let ghost b1 = bus;
    let r2 = bus.insert(com2, COM2_ADDR, SERIAL_PORT_SIZE);
    proof {
        assert(!b1.overlaps_existing(COM2_ADDR, SERIAL_PORT_SIZE));
        assert(r2 is Ok);
        let k = choose|k: int|
            0 <= k <= b1.entries_seq().len() && bus.entries_seq() =~= b1.entries_seq().insert(
                k,
                (BusEntry { base: COM2_ADDR, len: SERIAL_PORT_SIZE, device: com2 }),
            );
        if k == 1 {
            assert(bus.entries_seq()[0].base + bus.entries_seq()[0].len
                <= bus.entries_seq()[1].base);
            assert(false);
        }
        assert(bus.entries_seq() =~= seq![
            (BusEntry { base: COM2_ADDR, len: SERIAL_PORT_SIZE, device: com2 }),
            (BusEntry { base: COM1_ADDR, len: SERIAL_PORT_SIZE, device: com1 }),
        ]);
    }

    let ghost b2 = bus;
    let r3 = bus.insert(com3, COM3_ADDR, SERIAL_PORT_SIZE);
    proof {
        assert(!b2.overlaps_existing(COM3_ADDR, SERIAL_PORT_SIZE));
        assert(r3 is Ok);
        let k = choose|k: int|
            0 <= k <= b2.entries_seq().len() && bus.entries_seq() =~= b2.entries_seq().insert(
                k,
                (BusEntry { base: COM3_ADDR, len: SERIAL_PORT_SIZE, device: com3 }),
            );
        if k == 0 {
            assert(bus.entries_seq()[0].base + bus.entries_seq()[0].len
                <= bus.entries_seq()[1].base);
            assert(false);
        }
        if k == 2 {
            assert(bus.entries_seq()[1].base + bus.entries_seq()[1].len
                <= bus.entries_seq()[2].base);
            assert(false);
        }
        assert(bus.entries_seq() =~= seq![
            (BusEntry { base: COM2_ADDR, len: SERIAL_PORT_SIZE, device: com2 }),
            (BusEntry { base: COM3_ADDR, len: SERIAL_PORT_SIZE, device: com3 }),
            (BusEntry { base: COM1_ADDR, len: SERIAL_PORT_SIZE, device: com1 }),
        ]);
    }

    let ghost b3 = bus;
    let r4 = bus.insert(com4, COM4_ADDR, SERIAL_PORT_SIZE);
    proof {
        assert(!b3.overlaps_existing(COM4_ADDR, SERIAL_PORT_SIZE));
        assert(r4 is Ok);
        let k = choose|k: int|
            0 <= k <= b3.entries_seq().len() && bus.entries_seq() =~= b3.entries_seq().insert(
                k,
                (BusEntry { base: COM4_ADDR, len: SERIAL_PORT_SIZE, device: com4 }),
            );
        if k == 1 {
            assert(bus.entries_seq()[0].base + bus.entries_seq()[0].len
                <= bus.entries_seq()[1].base);
            assert(false);
        }
        if k == 2 {
            assert(bus.entries_seq()[1].base + bus.entries_seq()[1].len
                <= bus.entries_seq()[2].base);
            assert(false);
        }
        if k == 3 {
            assert(bus.entries_seq()[2].base + bus.entries_seq()[2].len
                <= bus.entries_seq()[3].base);
            assert(false);
        }
        assert(bus.entries_seq() =~= seq![
            (BusEntry { base: COM4_ADDR, len: SERIAL_PORT_SIZE, device: com4 }),
            (BusEntry { base: COM2_ADDR, len: SERIAL_PORT_SIZE, device: com2 }),
            (BusEntry { base: COM3_ADDR, len: SERIAL_PORT_SIZE, device: com3 }),
            (BusEntry { base: COM1_ADDR, len: SERIAL_PORT_SIZE, device: com1 }),
        ]);
    }

    bus
}

} // verus!
