use vstd::prelude::*;

use crate::bus::EcBus;
use crate::error::EcError;
use crate::model::{
    ff_range, flash_at, next_ptr, param_at, quiet, spi_data_step, spi_opcode_step, status_byte,
    EcModel, Phase, SpiPhase,
};

verus! {

/// The busy-wait budget for a status poll, in loop iterations.
pub const TIMEOUT: usize = 100000;

/// The size class parameter: 0x80 there means a 128 KiB part.
pub const SIZE_PARAM: u8 = 0xE5;

/// The device size the size-class parameter announces.
pub open spec fn size_class(m: EcModel) -> usize {
    if param_at(m.params, 0xE5) == 0x80 {
        0x20000
    } else {
        0x10000
    }
}

/// The fields of the model a flashing operation never changes.
pub open spec fn preserved(a: EcModel, b: EcModel) -> bool {
    &&& b.params == a.params
    &&& b.project == a.project
    &&& b.version == a.version
    &&& b.start_ack == a.start_ack
    &&& b.stopped == a.stopped
}

/// An image padded with 0xFF up to a device size.
pub open spec fn padded(img: Seq<u8>, n: int) -> Seq<u8> {
    Seq::new(n as nat, |i: int| if i < img.len() { img[i] } else { 0xFFu8 })
}

/// A flash whose first `n` bytes come from the padded image and whose rest
/// is untouched.
pub open spec fn spliced(f: Seq<u8>, img: Seq<u8>, n: int) -> Seq<u8> {
    Seq::new(
        f.len(),
        |i: int| if i < n {
            if i < img.len() {
                img[i]
            } else {
                0xFFu8
            }
        } else {
            f[i]
        },
    )
}

/// Split a 24-bit SPI address into its three big-endian bytes, rejecting
/// any address with a bit set in the top byte.
pub fn spi_addr_bytes(addr: u32) -> (r: Result<(u8, u8, u8), EcError>)
    ensures
        r is Ok <==> addr & 0xFF000000 == 0,
        r is Err ==> r == Err::<(u8, u8, u8), EcError>(EcError::InvalidAddress(addr)),
        r matches Ok((hi, mid, lo)) ==> addr == hi as int * 0x10000 + mid as int * 0x100
            + lo as int,
{
    assert(addr & 0xFF000000 == 0 <==> addr < 0x1000000) by (bit_vector);
    if addr & 0xFF000000 != 0 {
        return Err(EcError::InvalidAddress(addr));
    }
    let hi = (addr / 0x10000) as u8;
    let mid = ((addr / 0x100) % 0x100) as u8;
    let lo = (addr % 0x100) as u8;
    Ok((hi, mid, lo))
}

/// The ISP engine: owns a channel to the EC for the whole session and
/// drives the follow-mode SPI protocol over it.
pub struct Flasher<E: EcBus> {
    /// The channel this session owns exclusively.
    pub ec: E,
    /// The cached device size in bytes.
    pub size: usize,
}

impl<E: EcBus> Flasher<E> {
    /// The model of the EC this flasher drives.
    pub open spec fn model(&self) -> EcModel {
        self.ec.model()
    }

    /// Between operations: the channel is at rest, and the cached size
    /// matches the attached flash.
    pub open spec fn wf(&self) -> bool {
        &&& quiet(self.model())
        &&& self.model().flash.len() == self.size
        &&& (self.size == 0x10000 || self.size == 0x20000)
    }

    /// Take ownership of the channel and cache the device size, as the
    /// size-class parameter reports it.
    pub fn new(ec: E) -> (r: Result<Flasher<E>, EcError>)
        requires
            quiet(ec.model()),
        ensures
            r matches Ok(f) ==> {
                &&& quiet(f.model())
                &&& f.size == size_class(ec.model())
                &&& f.model().flash == ec.model().flash
                &&& preserved(ec.model(), f.model())
                &&& f.model().wel == ec.model().wel
            },
    {
        let mut ec = ec;
        let ghost m0 = ec.model();
        ec.bus_cmd(0x80)?;
        ec.bus_write(SIZE_PARAM)?;
        let v = ec.bus_read()?;
        proof {
            assert(ec.model() =~= m0);
        }
        let size: usize = if v == 0x80 {
            0x20000
        } else {
            0x10000
        };
        Ok(Flasher { ec, size })
    }

    /// Ask the EC to forward command bytes to the SPI flash.
    fn enter_follow(&mut self) -> (r: Result<(), EcError>)
        requires
            old(self).model().phase == Phase::Ready,
        ensures
            final(self).size == old(self).size,
            r is Ok ==> final(self).model() == (EcModel {
                follow: true,
                spi: SpiPhase::SpiIdle,
                ..old(self).model()
            }),
    {
        self.ec.bus_cmd(1)
    }

    /// Stop forwarding command bytes to the SPI flash.
    fn exit_follow(&mut self) -> (r: Result<(), EcError>)
        requires
            old(self).model().phase == Phase::Ready,
        ensures
            final(self).size == old(self).size,
            r is Ok ==> final(self).model() == (EcModel {
                follow: false,
                spi: SpiPhase::SpiIdle,
                ..old(self).model()
            }),
    {
        self.ec.bus_cmd(5)
    }

    /// Issue one SPI opcode through follow mode.
    fn spi_cmd(&mut self, c: u8) -> (r: Result<(), EcError>)
        requires
            old(self).model().phase == Phase::Ready,
            old(self).model().follow,
        ensures
            final(self).size == old(self).size,
            r is Ok ==> final(self).model() == spi_opcode_step(old(self).model(), c),
    {
        let ghost m0 = self.model();
        self.ec.bus_cmd(2)?;
        self.ec.bus_cmd(c)?;
        proof {
            assert(self.model() =~= spi_opcode_step(m0, c));
        }
        Ok(())
    }

    /// Push one payload byte onto the SPI write stream.
    fn spi_write(&mut self, v: u8) -> (r: Result<(), EcError>)
        requires
            old(self).model().phase == Phase::Ready,
            old(self).model().follow,
        ensures
            final(self).size == old(self).size,
            r is Ok ==> final(self).model() == spi_data_step(old(self).model(), v),
    {
        let ghost m0 = self.model();
        self.ec.bus_cmd(3)?;
        self.ec.bus_cmd(v)?;
        proof {
            assert(self.model() =~= spi_data_step(m0, v));
        }
        Ok(())
    }

    /// Pop one byte from the SPI read stream.
    fn spi_read(&mut self) -> (r: Result<u8, EcError>)
        requires
            old(self).model().phase == Phase::Ready,
            old(self).model().follow,
            old(self).model().out.len() == 0,
        ensures
            final(self).size == old(self).size,
            r matches Ok(b) ==> {
                &&& b == spi_out_byte(old(self).model())
                &&& final(self).model() == (EcModel {
                    spi: spi_advance(old(self).model().spi),
                    ..old(self).model()
                })
            },
    {
        let ghost m0 = self.model();
        self.ec.bus_cmd(4)?;
        let b = self.ec.bus_read()?;
        proof {
            assert(self.model().out =~= m0.out);
            assert(self.model() =~= (EcModel { spi: spi_advance(m0.spi), ..m0 }));
        }
        Ok(b)
    }

    /// Poll the SPI status register until BUSY clears, leaving follow mode.
    fn spi_wait(&mut self) -> (r: Result<(), EcError>)
        requires
            old(self).model().phase == Phase::Ready,
            old(self).model().out.len() == 0,
        ensures
            final(self).size == old(self).size,
            r is Ok ==> final(self).model() == (EcModel {
                follow: false,
                spi: SpiPhase::SpiIdle,
                ..old(self).model()
            }),
    {
        let ghost m0 = self.model();
        self.enter_follow()?;
        self.spi_cmd(0x05)?;
        let mut budget: usize = TIMEOUT;
        loop
            invariant
                self.model() == (EcModel { follow: true, spi: SpiPhase::Status, ..m0 }),
                m0.phase == Phase::Ready,
                m0.out.len() == 0,
                self.size == old(self).size,
            decreases budget,
        {
            let s = self.spi_read()?;
            if s & 1 == 0 {
                break ;
            }
            if budget == 0 {
                return Err(EcError::Timeout);
            }
            budget = budget - 1;
        }
        self.exit_follow()?;
        proof {
            assert(self.model() =~= (EcModel {
                follow: false,
                spi: SpiPhase::SpiIdle,
                ..m0
            }));
        }
        Ok(())
    }

    /// Latch write enable: wait, issue 0x06, and poll until WEL is set
    /// with BUSY clear.
    fn spi_write_enable(&mut self) -> (r: Result<(), EcError>)
        requires
            old(self).model().phase == Phase::Ready,
            old(self).model().out.len() == 0,
        ensures
            final(self).size == old(self).size,
            r is Ok ==> final(self).model() == (EcModel {
                follow: false,
                wel: true,
                spi: SpiPhase::SpiIdle,
                ..old(self).model()
            }),
    {
        let ghost m0 = self.model();
        self.spi_wait()?;
        self.enter_follow()?;
        self.spi_cmd(0x06)?;
        self.enter_follow()?;
        self.spi_cmd(0x05)?;
        let mut budget: usize = TIMEOUT;
        loop
            invariant
                self.model() == (EcModel {
                    follow: true,
                    wel: true,
                    spi: SpiPhase::Status,
                    ..m0
                }),
                m0.phase == Phase::Ready,
                m0.out.len() == 0,
                self.size == old(self).size,
            decreases budget,
        {
            let s = self.spi_read()?;
            if s & 3 == 2 {
                break ;
            }
            if budget == 0 {
                return Err(EcError::Timeout);
            }
            budget = budget - 1;
        }
        self.exit_follow()?;
        proof {
            assert(self.model() =~= (EcModel {
                follow: false,
                wel: true,
                spi: SpiPhase::SpiIdle,
                ..m0
            }));
        }
        Ok(())
    }

    /// Drop write enable: wait, issue 0x04, and poll until WEL clears.
    fn spi_write_disable(&mut self) -> (r: Result<(), EcError>)
        requires
            old(self).model().phase == Phase::Ready,
            old(self).model().out.len() == 0,
        ensures
            final(self).size == old(self).size,
            r is Ok ==> final(self).model() == (EcModel {
                follow: false,
                wel: false,
                aai: Option::None,
                spi: SpiPhase::SpiIdle,
                ..old(self).model()
            }),
    {
        let ghost m0 = self.model();
        self.spi_wait()?;
        self.enter_follow()?;
        self.spi_cmd(0x04)?;
        self.enter_follow()?;
        self.spi_cmd(0x05)?;
        let mut budget: usize = TIMEOUT;
        loop
            invariant
                self.model() == (EcModel {
                    follow: true,
                    wel: false,
                    aai: Option::None,
                    spi: SpiPhase::Status,
                    ..m0
                }),
                m0.phase == Phase::Ready,
                m0.out.len() == 0,
                self.size == old(self).size,
            decreases budget,
        {
            let s = self.spi_read()?;
            if s & 2 == 0 {
                break ;
            }
            if budget == 0 {
                return Err(EcError::Timeout);
            }
            budget = budget - 1;
        }
        self.exit_follow()?;
        proof {
            assert(self.model() =~= (EcModel {
                follow: false,
                wel: false,
                aai: Option::None,
                spi: SpiPhase::SpiIdle,
                ..m0
            }));
        }
        Ok(())
    }

    /// Stream the whole flash out with fast-read commands, one 64 KiB
    /// region at a time, reporting progress after each 1 KiB block.
    pub fn read<F: Fn(usize)>(&mut self, callback: F) -> (r: Result<Vec<u8>, EcError>)
        requires
            old(self).wf(),
            forall|n: usize| #[trigger] call_requires(callback, (n,)),
        ensures
            final(self).size == old(self).size,
            r matches Ok(buf) ==> {
                &&& buf@ == old(self).model().flash
                &&& buf@.len() == old(self).size
                &&& final(self).wf()
                &&& final(self).model().flash == old(self).model().flash
                &&& preserved(old(self).model(), final(self).model())
            },
    {
        let ghost m0 = self.model();
        let dev_size = self.size;
        let regions = dev_size / 0x10000;
        let mut buf: Vec<u8> = Vec::new();
        let mut sector: usize = 0;
        while sector < regions
            invariant
                self.wf(),
                self.size == dev_size,
                dev_size == old(self).size,
                dev_size == regions * 0x10000,
                1 <= regions <= 2,
                sector <= regions,
                m0.flash.len() == dev_size,
                self.model().flash == m0.flash,
                preserved(m0, self.model()),
                buf@ == m0.flash.subrange(0, sector as int * 0x10000),
                forall|n: usize| #[trigger] call_requires(callback, (n,)),
            decreases regions - sector,
        {
            self.spi_write_disable()?;
            self.spi_wait()?;
            self.enter_follow()?;
            self.spi_cmd(0x0B)?;
            let (hi, mid, lo) = match spi_addr_bytes((sector * 0x10000) as u32) {
                Ok(t) => t,
                Err(e) => {
                    return Err(e);
                },
            };
            self.spi_write(hi)?;
            self.spi_write(mid)?;
            self.spi_write(lo)?;
            self.spi_write(0)?;
            proof {
                assert(self.model().spi == SpiPhase::ReadData(
                    ((sector * 0x10000) as u32),
                ));
            }
            let mut block: usize = 0;
            while block < 64
                invariant
                    self.size == dev_size,
                    dev_size == old(self).size,
                    dev_size == regions * 0x10000,
                    1 <= regions <= 2,
                    sector < regions,
                    block <= 64,
                    m0.flash.len() == dev_size,
                    self.model().flash == m0.flash,
                    preserved(m0, self.model()),
                    self.model().phase == Phase::Ready,
                    self.model().out.len() == 0,
                    self.model().follow,
                    self.model().aai is None,
                    self.model().spi == SpiPhase::ReadData(
                        ((sector * 0x10000 + block * 0x400) as u32),
                    ),
                    buf@ == m0.flash.subrange(
                        0,
                        sector as int * 0x10000 + block as int * 0x400,
                    ),
                    forall|n: usize| #[trigger] call_requires(callback, (n,)),
                decreases 64 - block,
            {
                let mut k: usize = 0;
                while k < 1024
                    invariant
                        self.size == dev_size,
                        dev_size == old(self).size,
                        dev_size == regions * 0x10000,
                        1 <= regions <= 2,
                        sector < regions,
                        block < 64,
                        k <= 1024,
                        m0.flash.len() == dev_size,
                        self.model().flash == m0.flash,
                        preserved(m0, self.model()),
                        self.model().phase == Phase::Ready,
                        self.model().out.len() == 0,
                        self.model().follow,
                        self.model().aai is None,
                        self.model().spi == SpiPhase::ReadData(
                            ((sector * 0x10000 + block * 0x400 + k) as u32),
                        ),
                        buf@ == m0.flash.subrange(
                            0,
                            sector as int * 0x10000 + block as int * 0x400 + k as int,
                        ),
                    decreases 1024 - k,
                {
                    let ghost p = sector as int * 0x10000 + block as int * 0x400 + k as int;
                    let b = self.spi_read()?;
                    buf.push(b);
                    proof {
                        assert(b == m0.flash[p]);
                        assert(buf@ =~= m0.flash.subrange(0, p + 1));
                    }
                    k = k + 1;
                }
                callback(buf.len());
                block = block + 1;
            }
            self.spi_wait()?;
            sector = sector + 1;
        }
        proof {
            assert(buf@ =~= m0.flash);
        }
        Ok(buf)
    }

    /// Erase the whole flash to 0xFF, 1 KiB at a time, reporting progress
    /// after each block.
    pub fn erase<F: Fn(usize)>(&mut self, callback: F) -> (r: Result<(), EcError>)
        requires
            old(self).wf(),
            forall|n: usize| #[trigger] call_requires(callback, (n,)),
        ensures
            final(self).size == old(self).size,
            r is Ok ==> {
                &&& final(self).wf()
                &&& final(self).model().flash == ff_range(
                    old(self).model().flash,
                    0,
                    old(self).size as int,
                )
                &&& preserved(old(self).model(), final(self).model())
            },
    {
        let ghost m0 = self.model();
        let dev_size = self.size;
        let regions = dev_size / 0x10000;
        let mut sector: usize = 0;
        while sector < regions
            invariant
                self.wf(),
                self.size == dev_size,
                dev_size == old(self).size,
                dev_size == regions * 0x10000,
                1 <= regions <= 2,
                sector <= regions,
                m0.flash.len() == dev_size,
                self.model().flash == ff_range(m0.flash, 0, sector as int * 0x10000),
                preserved(m0, self.model()),
                forall|n: usize| #[trigger] call_requires(callback, (n,)),
            decreases regions - sector,
        {
            let mut block: usize = 0;
            while block < 64
                invariant
                    self.wf(),
                    self.size == dev_size,
                    dev_size == old(self).size,
                    dev_size == regions * 0x10000,
                    1 <= regions <= 2,
                    sector < regions,
                    block <= 64,
                    m0.flash.len() == dev_size,
                    self.model().flash == ff_range(
                        m0.flash,
                        0,
                        sector as int * 0x10000 + block as int * 0x400,
                    ),
                    preserved(m0, self.model()),
                    forall|n: usize| #[trigger] call_requires(callback, (n,)),
                decreases 64 - block,
            {
                let index = sector * 0x10000 + block * 0x400;
                self.spi_write_enable()?;
                self.enter_follow()?;
                self.spi_cmd(0xD7)?;
                self.spi_write(sector as u8)?;
                self.spi_write(block as u8)?;
                self.spi_write(0)?;
                self.exit_follow()?;
                self.spi_wait()?;
                proof {
                    assert(self.model().flash =~= ff_range(m0.flash, 0, index as int + 0x400));
                }
                callback(index + 0x400);
                block = block + 1;
            }
            sector = sector + 1;
        }
        Ok(())
    }

    /// Program an even-length image with AAI word programming, padding the
    /// tail of the device with 0xFF, and reporting progress after each
    /// 1 KiB block.
    pub fn write<F: Fn(usize)>(&mut self, buf: &[u8], callback: F) -> (r: Result<
        (),
        EcError,
    >)
        requires
            old(self).wf(),
            forall|n: usize| #[trigger] call_requires(callback, (n,)),
        ensures
            final(self).size == old(self).size,
            buf@.len() % 2 != 0 || buf@.len() > old(self).size ==> r == Err::<(), EcError>(
                EcError::InvalidLength(buf@.len() as usize),
            ),
            r is Ok ==> {
                &&& buf@.len() % 2 == 0
                &&& buf@.len() <= old(self).size
                &&& final(self).wf()
                &&& final(self).model().flash == padded(buf@, old(self).size as int)
                &&& preserved(old(self).model(), final(self).model())
            },
    {
        let ghost m0 = self.model();
        let img_len = buf.len();
        if img_len % 2 != 0 || img_len > self.size {
            return Err(EcError::InvalidLength(img_len));
        }
        let dev_size = self.size;
        let regions = dev_size / 0x10000;
        let mut sector: usize = 0;
        while sector < regions
            invariant
                self.wf(),
                self.size == dev_size,
                dev_size == old(self).size,
                dev_size == regions * 0x10000,
                1 <= regions <= 2,
                sector <= regions,
                m0.flash.len() == dev_size,
                buf@.len() <= dev_size,
                buf@.len() % 2 == 0,
                self.model().flash == spliced(m0.flash, buf@, sector as int * 0x10000),
                preserved(m0, self.model()),
                forall|n: usize| #[trigger] call_requires(callback, (n,)),
            decreases regions - sector,
        {
            self.spi_write_enable()?;
            let mut block: usize = 0;
            while block < 64
                invariant
                    self.size == dev_size,
                    dev_size == old(self).size,
                    dev_size == regions * 0x10000,
                    1 <= regions <= 2,
                    sector < regions,
                    block <= 64,
                    m0.flash.len() == dev_size,
                    buf@.len() <= dev_size,
                    buf@.len() % 2 == 0,
                    self.model().phase == Phase::Ready,
                    self.model().out.len() == 0,
                    !self.model().follow,
                    self.model().spi == SpiPhase::SpiIdle,
                    self.model().wel,
                    self.model().flash == spliced(
                        m0.flash,
                        buf@,
                        sector as int * 0x10000 + block as int * 0x400,
                    ),
                    (if block == 0 {
                        self.model().aai is None
                    } else {
                        self.model().aai == Option::Some(
                            ((sector * 0x10000 + block * 0x400) as u32),
                        )
                    }),
                    preserved(m0, self.model()),
                    forall|n: usize| #[trigger] call_requires(callback, (n,)),
                decreases 64 - block,
            {
                let index = sector * 0x10000 + block * 0x400;
                let mut word: usize = 0;
                while word < 512
                    invariant
                        self.size == dev_size,
                        dev_size == old(self).size,
                        dev_size == regions * 0x10000,
                        1 <= regions <= 2,
                        sector < regions,
                        block < 64,
                        word <= 512,
                        index == sector * 0x10000 + block * 0x400,
                        m0.flash.len() == dev_size,
                        buf@.len() <= dev_size,
                        buf@.len() % 2 == 0,
                        self.model().phase == Phase::Ready,
                        self.model().out.len() == 0,
                        !self.model().follow,
                        self.model().spi == SpiPhase::SpiIdle,
                        self.model().wel,
                        self.model().flash == spliced(
                            m0.flash,
                            buf@,
                            index as int + word as int * 2,
                        ),
                        (if block == 0 && word == 0 {
                            self.model().aai is None
                        } else {
                            self.model().aai == Option::Some(((index + word * 2) as u32))
                        }),
                        preserved(m0, self.model()),
                    decreases 512 - word,
                {
                    let ghost p = index as int + word as int * 2;
                    self.enter_follow()?;
                    self.spi_cmd(0xAD)?;
                    if block == 0 && word == 0 {
                        let (hi, mid, lo) = match spi_addr_bytes((sector * 0x10000) as u32) {
                            Ok(t) => t,
                            Err(e) => {
                                return Err(e);
                            },
                        };
                        self.spi_write(hi)?;
                        self.spi_write(mid)?;
                        self.spi_write(lo)?;
                    }
                    let i0 = index + word * 2;
                    let d0 = match buf.get(i0) {
                        Some(b) => *b,
                        None => 0xFF,
                    };
                    let d1 = match buf.get(i0 + 1) {
                        Some(b) => *b,
                        None => 0xFF,
                    };
                    self.spi_write(d0)?;
                    self.spi_write(d1)?;
                    self.spi_wait()?;
                    proof {
                        assert(self.model().flash =~= spliced(m0.flash, buf@, p + 2));
                    }
                    word = word + 1;
                }
                callback(index + 0x400);
                block = block + 1;
            }
            self.spi_write_disable()?;
            self.spi_wait()?;
            sector = sector + 1;
        }
        proof {
            assert(self.model().flash =~= padded(buf@, dev_size as int));
        }
        Ok(())
    }

    /// The whole flashing flow: start, erase, verify the erase, program
    /// the image padded to the device size, verify the programming, stop.
    pub fn flash(&mut self, image: &[u8]) -> (r: Result<(), EcError>)
        requires
            old(self).wf(),
        ensures
            final(self).size == old(self).size,
            image@.len() > old(self).size ==> r == Err::<(), EcError>(
                EcError::InvalidLength(image@.len() as usize),
            ),
            old(self).model().start_ack != 51 ==> !(r is Ok),
            r is Ok ==> {
                &&& old(self).model().start_ack == 51
                &&& image@.len() <= old(self).size
                &&& final(self).model().flash == padded(image@, old(self).size as int)
                &&& final(self).model().stopped
            },
    {
        let ghost m0 = self.model();
        let n = image.len();
        if n > self.size {
            return Err(EcError::InvalidLength(n));
        }
        // copy the image, padding an odd length to word granularity
        let mut img: Vec<u8> = Vec::new();
        let mut i: usize = 0;
        while i < image.len()
            invariant
                i <= image@.len(),
                img@ == image@.subrange(0, i as int),
            decreases image@.len() - i,
        {
            let b = match image.get(i) {
                Some(x) => *x,
                None => 0xFF,
            };
            img.push(b);
            proof {
                assert(img@ =~= image@.subrange(0, i as int + 1));
            }
            i = i + 1;
        }
        proof {
            assert(img@ =~= image@);
        }
        if img.len() % 2 != 0 {
            img.push(0xFF);
        }
        proof {
            assert(img@.len() % 2 == 0);
            assert(padded(img@, self.size as int) =~= padded(image@, self.size as int));
        }
        let ack = self.start()?;
        if ack != 51 {
            return Err(EcError::StartRejected(ack));
        }
        self.erase(no_progress)?;
        let rbuf = self.read(no_progress)?;
        let mut j: usize = 0;
        while j < rbuf.len()
            invariant
                j <= rbuf@.len(),
                image@.len() <= old(self).size,
                rbuf@.len() == self.size,
                rbuf@ == self.model().flash,
                self.wf(),
                self.size == old(self).size,
                self.model().flash == ff_range(m0.flash, 0, self.size as int),
                preserved(m0, self.model()),
                m0.flash.len() == self.size,
            decreases rbuf@.len() - j,
        {
            let b = rbuf[j];
            if b != 0xFF {
                return Err(EcError::EraseMismatch(j, b));
            }
            j = j + 1;
        }
        self.write(img.as_slice(), no_progress)?;
        let vbuf = self.read(no_progress)?;
        let mut j2: usize = 0;
        while j2 < vbuf.len()
            invariant
                j2 <= vbuf@.len(),
                image@.len() <= old(self).size,
                vbuf@.len() == self.size,
                vbuf@ == self.model().flash,
                self.wf(),
                self.size == old(self).size,
                img@.len() <= self.size,
                self.model().flash == padded(img@, self.size as int),
                preserved(m0, self.model()),
            decreases vbuf@.len() - j2,
        {
            let b = vbuf[j2];
            let expected = if j2 < img.len() {
                img[j2]
            } else {
                0xFF
            };
            if b != expected {
                return Err(EcError::ProgramMismatch(j2, b, expected));
            }
            j2 = j2 + 1;
        }
        self.stop()?;
        proof {
            assert(self.model().flash =~= padded(image@, old(self).size as int));
        }
        Ok(())
    }

    /// Leave the EC as safe as possible after a failed operation, whose
    /// error leaves the channel state unknown: push a write-disable opcode
    /// and a follow-mode exit at it, ignoring the answers.
    pub fn release(&mut self)
        ensures
            final(self).size == old(self).size,
    {
        let _ = self.ec.bus_cmd(2);
        let _ = self.ec.bus_cmd(0x04);
        let _ = self.ec.bus_cmd(5);
    }

    /// Ask the EC to enter flasher mode; the acknowledge byte is 51 on
    /// success and anything else on refusal.
    pub fn start(&mut self) -> (r: Result<u8, EcError>)
        requires
            old(self).model().phase == Phase::Ready,
            old(self).model().out.len() == 0,
        ensures
            final(self).size == old(self).size,
            r matches Ok(ack) ==> {
                &&& ack == old(self).model().start_ack
                &&& final(self).model() == old(self).model()
            },
    {
        let ghost m0 = self.model();
        self.ec.bus_cmd(0xDC)?;
        let ack = self.ec.bus_read()?;
        proof {
            assert(self.model() =~= m0);
        }
        Ok(ack)
    }

    /// Leave flasher mode; on current hardware this powers the system off.
    pub fn stop(&mut self) -> (r: Result<(), EcError>)
        requires
            old(self).model().phase == Phase::Ready,
        ensures
            final(self).size == old(self).size,
            r is Ok ==> final(self).model() == (EcModel {
                stopped: true,
                phase: Phase::Ready,
                ..old(self).model()
            }),
    {
        let ghost m0 = self.model();
        self.ec.bus_cmd(0x95)?;
        self.ec.bus_cmd(0xFC)?;
        proof {
            assert(self.model() =~= (EcModel { stopped: true, phase: Phase::Ready, ..m0 }));
        }
        Ok(())
    }
}

/// A progress callback that reports nothing.
pub fn no_progress(_n: usize) {
}

/// The byte the open SPI transaction yields next.
pub open spec fn spi_out_byte(m: EcModel) -> u8 {
    match m.spi {
        SpiPhase::Status => status_byte(m),
        SpiPhase::ReadData(ptr) => flash_at(m.flash, ptr),
        _ => 0,
    }
}

/// How popping one byte moves the open SPI transaction on.
pub open spec fn spi_advance(s: SpiPhase) -> SpiPhase {
    match s {
        SpiPhase::ReadData(ptr) => SpiPhase::ReadData(next_ptr(ptr)),
        _ => s,
    }
}

} // verus!
