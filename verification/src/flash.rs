use vstd::prelude::*;

use crate::error::EcError;
use crate::file::{bytes_to_string, latin1};
use crate::io::PortIo;

verus! {

/// The busy-wait budget for a status-bit poll, in loop iterations.
pub const TIMEOUT: usize = 100000;

/// The Super-I/O identity decision: the two probed bytes concatenate
/// big-endian into the chip id, and only the two known EC ids pass; any
/// other id is reported by name.
pub fn check_id(a: u8, b: u8) -> (r: Result<u16, EcError>)
    ensures
        ({
            let id = a as int * 0x100 + b as int;
            &&& (r is Ok <==> id == 0x8587 || id == 0x5570)
            &&& (r matches Ok(i) ==> i == id)
            &&& (r matches Err(e) ==> e == EcError::UnknownEc(id as u16))
        }),
{
    let id: u16 = ((a as u16) << 8u16) | (b as u16);
    proof {
        let au = a as u16;
        let bu = b as u16;
        assert(au << 8u16 | bu == au * 0x100 + bu) by (bit_vector)
            requires
                au < 0x100 && bu < 0x100,
        ;
    }
    if id == 0x8587 || id == 0x5570 {
        Ok(id)
    } else {
        Err(EcError::UnknownEc(id))
    }
}

/// The device size a size-class answer selects: 0x80 means a 128 KiB
/// part; any other answer, a refused query included, a 64 KiB part.
pub fn size_of_class(v: Result<u8, EcError>) -> (r: usize)
    ensures
        r == (if v matches Ok(w) && w == 0x80 {
            0x20000usize
        } else {
            0x10000usize
        }),
{
    match v {
        Ok(w) => {
            if w == 0x80 {
                0x20000
            } else {
                0x10000
            }
        },
        Err(_) => 0x10000,
    }
}

/// A live EC reached over two x86 I/O ports, with the status-bit
/// handshake the hardware demands. Nothing can be promised of the bytes a
/// port returns, so the contracts here are structural: which errors can
/// come out, and the shape of what is returned.
pub struct EcFlash<P: PortIo> {
    /// The port backend.
    pub io: P,
    /// Whether this is the primary ISP channel.
    pub primary: bool,
    pub data_port: u16,
    pub cmd_port: u16,
}

impl<P: PortIo> EcFlash<P> {
    /// The channel's identity: the chosen ports never change.
    pub open spec fn same_channel(&self, other: &Self) -> bool {
        &&& self.primary == other.primary
        &&& self.data_port == other.data_port
        &&& self.cmd_port == other.cmd_port
    }

    /// The data/command port pair of an EC channel index.
    pub open spec fn ports_of(index: u8) -> Option<(u16, u16)> {
        if index == 0 {
            Some((0x60u16, 0x64u16))
        } else if index == 1 {
            Some((0x62u16, 0x66u16))
        } else if index == 2 {
            Some((0x68u16, 0x6Cu16))
        } else if index == 3 {
            Some((0x6Au16, 0x6Eu16))
        } else {
            None
        }
    }

    /// Open the channel with the given index; index 1 is the primary ISP
    /// channel. The Super-I/O chip is probed for a known EC first.
    pub fn new_index(io: P, index: u8) -> (r: Result<EcFlash<P>, EcError>)
        ensures
            index > 3 ==> r is Err,
            r matches Ok(ec) ==> {
                &&& ec.primary == (index == 1)
                &&& Self::ports_of(index) == Some((ec.data_port, ec.cmd_port))
            },
            r matches Err(e) ==> (e matches EcError::UnknownEc(id) && id != 0x8587 && id
                != 0x5570),
    {
        let (data_port, cmd_port): (u16, u16) = match index {
            0 => (0x60, 0x64),
            1 => (0x62, 0x66),
            2 => (0x68, 0x6C),
            3 => (0x6A, 0x6E),
            _ => {
                return Err(EcError::UnknownEc(index as u16));
            },
        };
        let mut io = io;
        io.port_out(0x2E, 0x20);
        let a = io.port_in(0x2F);
        io.port_out(0x2E, 0x21);
        let b = io.port_in(0x2F);
        match check_id(a, b) {
            Ok(_) => Ok(EcFlash { io, primary: index == 1, data_port, cmd_port }),
            Err(e) => Err(e),
        }
    }

    /// Open the primary ISP channel, or the secondary one.
    pub fn new(io: P, primary: bool) -> (r: Result<EcFlash<P>, EcError>)
        ensures
            r matches Ok(ec) ==> {
                &&& ec.primary == primary
                &&& ec.data_port == (if primary {
                    0x62u16
                } else {
                    0x68u16
                })
                &&& ec.cmd_port == (if primary {
                    0x66u16
                } else {
                    0x6Cu16
                })
            },
            r matches Err(e) ==> (e matches EcError::UnknownEc(id) && id != 0x8587 && id
                != 0x5570),
    {
        Self::new_index(io, if primary {
            1
        } else {
            2
        })
    }

    /// The raw status byte.
    pub fn sts(&mut self) -> (r: u8)
        ensures
            final(self).same_channel(old(self)),
    {
        let p = self.cmd_port;
        self.io.port_in(p)
    }

    /// Bit 0 of the status: the EC has a byte for the host.
    pub fn can_read(&mut self) -> (r: bool)
        ensures
            final(self).same_channel(old(self)),
    {
        self.sts() & 1 == 1
    }

    /// Bit 1 of the status clear: the EC can take a byte.
    pub fn can_write(&mut self) -> (r: bool)
        ensures
            final(self).same_channel(old(self)),
    {
        self.sts() & 2 == 0
    }

    /// Spin until the EC has a byte for the host, within the budget.
    pub fn wait_read(&mut self, timeout: usize) -> (r: Result<(), EcError>)
        ensures
            final(self).same_channel(old(self)),
            r is Err ==> r == Err::<(), EcError>(EcError::Timeout),
    {
        let mut t = timeout;
        loop
            invariant
                self.same_channel(old(self)),
            decreases t,
        {
            if self.can_read() {
                return Ok(());
            }
            if t == 0 {
                return Err(EcError::Timeout);
            }
            t = t - 1;
        }
    }

    /// Spin until the EC can take a byte, within the budget.
    pub fn wait_write(&mut self, timeout: usize) -> (r: Result<(), EcError>)
        ensures
            final(self).same_channel(old(self)),
            r is Err ==> r == Err::<(), EcError>(EcError::Timeout),
    {
        let mut t = timeout;
        loop
            invariant
                self.same_channel(old(self)),
            decreases t,
        {
            if self.can_write() {
                return Ok(());
            }
            if t == 0 {
                return Err(EcError::Timeout);
            }
            t = t - 1;
        }
    }

    /// Read and discard stale output until the EC reports none.
    pub fn flush(&mut self) -> (r: Result<(), EcError>)
        ensures
            final(self).same_channel(old(self)),
            r is Err ==> r == Err::<(), EcError>(EcError::Timeout),
    {
        let mut t: usize = TIMEOUT;
        loop
            invariant
                self.same_channel(old(self)),
            decreases t,
        {
            if !self.can_read() {
                return Ok(());
            }
            if t == 0 {
                return Err(EcError::Timeout);
            }
            let p = self.data_port;
            let _ = self.io.port_in(p);
            t = t - 1;
        }
    }

    /// Send one command byte, with the handshake before and after.
    pub fn cmd(&mut self, data: u8) -> (r: Result<(), EcError>)
        ensures
            final(self).same_channel(old(self)),
            r is Err ==> r == Err::<(), EcError>(EcError::Timeout),
    {
        self.wait_write(TIMEOUT)?;
        let p = self.cmd_port;
        self.io.port_out(p, data);
        self.wait_write(TIMEOUT)
    }

    /// Read one data byte, after the handshake.
    pub fn read(&mut self) -> (r: Result<u8, EcError>)
        ensures
            final(self).same_channel(old(self)),
            r is Err ==> r == Err::<u8, EcError>(EcError::Timeout),
    {
        self.wait_read(TIMEOUT)?;
        let p = self.data_port;
        Ok(self.io.port_in(p))
    }

    /// Send one data byte, with the handshake before and after.
    pub fn write(&mut self, data: u8) -> (r: Result<(), EcError>)
        ensures
            final(self).same_channel(old(self)),
            r is Err ==> r == Err::<(), EcError>(EcError::Timeout),
    {
        self.wait_write(TIMEOUT)?;
        let p = self.data_port;
        self.io.port_out(p, data);
        self.wait_write(TIMEOUT)
    }

    /// Read one parameter byte.
    pub fn get_param(&mut self, param: u8) -> (r: Result<u8, EcError>)
        ensures
            final(self).same_channel(old(self)),
            r is Err ==> r == Err::<u8, EcError>(EcError::Timeout),
    {
        self.cmd(0x80)?;
        self.write(param)?;
        self.read()
    }

    /// Store one parameter byte.
    pub fn set_param(&mut self, param: u8, data: u8) -> (r: Result<(), EcError>)
        ensures
            final(self).same_channel(old(self)),
            r is Err ==> r == Err::<(), EcError>(EcError::Timeout),
    {
        self.cmd(0x81)?;
        self.write(param)?;
        self.write(data)
    }

    /// A sub-device transaction: load the argument and the four-byte
    /// buffer into parameters, trigger the command, read the buffer back,
    /// and clear the trigger.
    pub fn fcommand(&mut self, cmd: u8, dat: u8, buf: &mut [u8; 4]) -> (r: Result<(), EcError>)
        ensures
            final(self).same_channel(old(self)),
            r is Err ==> r == Err::<(), EcError>(EcError::Timeout),
    {
        self.set_param(0xF9, dat)?;
        self.set_param(0xFA, buf[0])?;
        self.set_param(0xFB, buf[1])?;
        self.set_param(0xFC, buf[2])?;
        self.set_param(0xFD, buf[3])?;
        self.set_param(0xF8, cmd)?;
        buf[0] = self.get_param(0xFA)?;
        buf[1] = self.get_param(0xFB)?;
        buf[2] = self.get_param(0xFC)?;
        buf[3] = self.get_param(0xFD)?;
        self.set_param(0xF8, 0x00)
    }

    /// Run a string command: up to 16 bytes, ended by the terminator `$`.
    pub fn get_str(&mut self, index: u8) -> (r: Result<String, EcError>)
        ensures
            final(self).same_channel(old(self)),
            r matches Ok(s) ==> s@.len() <= 16 && (forall|k: int|
                0 <= k < s@.len() ==> s@[k] != '$'),
            r is Err ==> r == Err::<String, EcError>(EcError::Timeout),
    {
        let mut bytes: Vec<u8> = Vec::new();
        self.cmd(index)?;
        let mut i: usize = 0;
        while i < 16
            invariant
                self.same_channel(old(self)),
                i <= 16,
                bytes@.len() <= i,
                forall|k: int| 0 <= k < bytes@.len() ==> bytes@[k] != 36u8,
            decreases 16 - i,
        {
            let byte = self.read()?;
            if byte == 36 {
                break ;
            }
            bytes.push(byte);
            i = i + 1;
        }
        let s = bytes_to_string(&bytes);
        proof {
            assert(36u8 as char == '$');
            assert forall|k: int| 0 <= k < s@.len() implies s@[k] != '$' by {
                assert(s@[k] == latin1(bytes@)[k]);
            }
        }
        Ok(s)
    }

    /// The device size the EC reports: 128 KiB if the primary channel's
    /// size-class parameter answers 0x80, else 64 KiB.
    pub fn size(&mut self) -> (r: usize)
        ensures
            final(self).same_channel(old(self)),
            r == 0x10000 || r == 0x20000,
            !old(self).primary ==> r == 0x10000,
    {
        let _ = self.flush();
        if self.primary {
            let q = self.get_param(0xE5);
            size_of_class(q)
        } else {
            0x10000
        }
    }

    /// The project string, or an empty string when the channel fails.
    pub fn project(&mut self) -> (r: String)
        ensures
            final(self).same_channel(old(self)),
    {
        let _ = self.flush();
        match self.get_str(0x92) {
            Ok(s) => s,
            Err(_) => String::new(),
        }
    }

    /// The version string, with the EC's fixed major prefix prepended.
    pub fn version(&mut self) -> (r: String)
        ensures
            final(self).same_channel(old(self)),
            r@.len() >= 2,
            r@.subrange(0, 2) == "1."@,
    {
        let _ = self.flush();
        let s = match self.get_str(0x93) {
            Ok(s) => s,
            Err(_) => String::new(),
        };
        let mut v = String::from_str("1.");
        proof {
            reveal_strlit("1.");
        }
        v.append(s.as_str());
        proof {
            assert(v@.subrange(0, 2) =~= "1."@);
        }
        v
    }
}

} // verus!

use crate::Ec;

verus! {

impl<P: PortIo> Ec for EcFlash<P> {
    fn size(&mut self) -> usize {
        EcFlash::size(self)
    }

    fn project(&mut self) -> String {
        EcFlash::project(self)
    }

    fn version(&mut self) -> String {
        EcFlash::version(self)
    }
}

} // verus!
