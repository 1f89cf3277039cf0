use vstd::prelude::*;

verus! {

/// Byte-wide x86 port I/O, as the EC channel consumes it. The library
/// promises nothing of what a port returns: a live EC behaves as the
/// hardware does, and every caller is verified for every possible answer.
pub trait PortIo: Sized {
    /// Read one byte from an I/O port.
    fn port_in(&mut self, port: u16) -> u8;

    /// Write one byte to an I/O port.
    fn port_out(&mut self, port: u16, value: u8);
}

} // verus!
