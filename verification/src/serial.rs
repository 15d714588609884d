//! The serial ports' bus access rule and the choice of TX sink.
//!
//! The 16550A register emulation itself lives in an outside crate and
//! does host I/O, so the front end drives it; this module holds the one
//! routing decision the bus makes for it: only byte-sized accesses
//! within the eight-register window reach the device.

use vstd::prelude::*;

verus! {

/// Where a serial port's TX bytes go: host stdout for the console
/// port, discard for its siblings.  The front end maps each tag to the
/// real sink.
#[derive(Clone, Copy, Debug, PartialEq, Eq, Structural)]
pub enum SerialOut {
    /// Discard everything written.
    Sink,
    /// Write to the host's standard output.
    Stdout,
}

/// The register offset a serial port access reaches, if the access is
/// well-formed: exactly one byte, at an offset that fits a register
/// number.  Any other access is ignored.
pub fn serial_byte_offset(offset: u64, len: usize) -> (r: Option<u8>)
    ensures
        r is Some <==> (offset <= 255 && len == 1),
        r is Some ==> r->0 == offset,
{
    if offset <= 255 && len == 1 {
        Some(offset as u8)
    } else {
        None
    }
}

} // verus!
