use vstd::prelude::*;

use crate::bus::EcBus;
use crate::error::EcError;
use crate::model::{
    ff_range, param_at, pop_out, quiet, spi_data_step, spi_opcode_step, spi_read_step, step_cmd,
    step_write, EcModel, Phase, SpiPhase,
};

verus! {

/// A simulated EC over an in-memory flash array, implementing the
/// documented command vocabulary exactly as the model states it.
pub struct SimEc {
    pub flash: Vec<u8>,
    pub params: Vec<u8>,
    pub project: Vec<u8>,
    pub version: Vec<u8>,
    pub out: Vec<u8>,
    pub follow: bool,
    pub wel: bool,
    pub stopped: bool,
    pub start_ack: u8,
    pub phase: Phase,
    pub spi: SpiPhase,
    pub aai: Option<u32>,
}

impl SimEc {
    /// A simulated EC at rest: the given flash contents, the size-class
    /// parameter, the start acknowledge byte, and the two query strings.
    pub fn new(
        flash: Vec<u8>,
        size_param: u8,
        start_ack: u8,
        project: Vec<u8>,
        version: Vec<u8>,
    ) -> (r: SimEc)
        ensures
            quiet(r.model()),
            r.model().flash == flash@,
            r.model().project == project@,
            r.model().version == version@,
            r.model().start_ack == start_ack,
            param_at(r.model().params, 0xE5) == size_param,
            !r.model().wel,
            !r.model().stopped,
            r.model().aai is None,
    {
        let mut params: Vec<u8> = Vec::new();
        let mut i: usize = 0;
        while i < 256
            invariant
                i <= 256,
                params@.len() == i,
                forall|k: int| 0 <= k < i ==> params@[k] == 0u8,
            decreases 256 - i,
        {
            params.push(0);
            i = i + 1;
        }
        params[0xE5] = size_param;
        SimEc {
            flash,
            params,
            project,
            version,
            out: Vec::new(),
            follow: false,
            wel: false,
            stopped: false,
            start_ack,
            phase: Phase::Ready,
            spi: SpiPhase::SpiIdle,
            aai: Option::None,
        }
    }

    /// Queue the next byte of the open SPI transaction.
    fn sim_spi_read(&mut self)
        ensures
            final(self).model() == spi_read_step(old(self).model()),
    {
        let ghost m0 = self.model();
        match self.spi {
            SpiPhase::Status => {
                let s: u8 = if self.wel {
                    2
                } else {
                    0
                };
                self.out.push(s);
            },
            SpiPhase::ReadData(ptr) => {
                let b: u8 = if (ptr as usize) < self.flash.len() {
                    self.flash[ptr as usize]
                } else {
                    0xFF
                };
                self.out.push(b);
                let ptr2: u32 = if ptr < 0xFFFF_FFFF {
                    ptr + 1
                } else {
                    ptr
                };
                self.spi = SpiPhase::ReadData(ptr2);
            },
            _ => {
                self.out.push(0);
            },
        }
        proof {
            assert(self.model() =~= spi_read_step(m0));
        }
    }

    /// Apply one SPI opcode to the simulated flash.
    fn sim_spi_opcode(&mut self, c: u8)
        ensures
            final(self).model() == spi_opcode_step(old(self).model(), c),
    {
        let ghost m0 = self.model();
        if c == 0x05 {
            self.spi = SpiPhase::Status;
        } else if c == 0x06 {
            self.wel = true;
            self.spi = SpiPhase::SpiIdle;
        } else if c == 0x04 {
            self.wel = false;
            self.aai = Option::None;
            self.spi = SpiPhase::SpiIdle;
        } else if c == 0x0B {
            self.spi = SpiPhase::ReadAddr(0, 0);
        } else if c == 0xD7 {
            self.spi = SpiPhase::EraseAddr(0, 0, 0);
        } else if c == 0xAD {
            match self.aai {
                Option::Some(a) => {
                    self.spi = SpiPhase::AaiData(a, false, 0);
                },
                Option::None => {
                    self.spi = SpiPhase::AaiAddr(0, 0);
                },
            }
        } else {
            self.spi = SpiPhase::SpiIdle;
        }
        proof {
            assert(self.model() =~= spi_opcode_step(m0, c));
        }
    }

    /// Apply one SPI payload byte to the simulated flash.
    fn sim_spi_data(&mut self, b: u8)
        ensures
            final(self).model() == spi_data_step(old(self).model(), b),
    {
        let ghost m0 = self.model();
        match self.spi {
            SpiPhase::ReadAddr(n, addr) => {
                if n < 3 {
                    self.spi = SpiPhase::ReadAddr(n + 1, (addr % 0x10000) * 0x100 + b as u32);
                } else {
                    self.spi = SpiPhase::ReadData(addr);
                }
            },
            SpiPhase::EraseAddr(n, sec, blk) => {
                if n == 0 {
                    self.spi = SpiPhase::EraseAddr(1, b, 0);
                } else if n == 1 {
                    self.spi = SpiPhase::EraseAddr(2, sec, b);
                } else {
                    let base = (sec as usize) * 0x10000 + (blk as usize) * 0x400;
                    if self.wel && base + 0x400 <= self.flash.len() {
                        let ghost f0 = self.flash@;
                        let mut q: usize = 0;
                        while q < 0x400
                            invariant
                                q <= 0x400,
                                base < 0x2000000,
                                base + 0x400 <= f0.len(),
                                self.flash@.len() == f0.len(),
                                self.flash@ == ff_range(f0, base as int, q as int),
                                self.params@ == old(self).params@,
                                self.project@ == old(self).project@,
                                self.version@ == old(self).version@,
                                self.out@ == old(self).out@,
                                self.follow == old(self).follow,
                                self.wel == old(self).wel,
                                self.stopped == old(self).stopped,
                                self.start_ack == old(self).start_ack,
                                self.phase == old(self).phase,
                                self.spi == old(self).spi,
                                self.aai == old(self).aai,
                            decreases 0x400 - q,
                        {
                            self.flash[base + q] = 0xFF;
                            proof {
                                assert(self.flash@ =~= ff_range(f0, base as int, q as int + 1));
                            }
                            q = q + 1;
                        }
                    }
                    self.wel = false;
                    self.spi = SpiPhase::SpiIdle;
                }
            },
            SpiPhase::AaiAddr(n, addr) => {
                let addr2 = (addr % 0x10000) * 0x100 + b as u32;
                if n < 2 {
                    self.spi = SpiPhase::AaiAddr(n + 1, addr2);
                } else {
                    self.spi = SpiPhase::AaiData(addr2, false, 0);
                }
            },
            SpiPhase::AaiData(addr, have, d0) => {
                if !have {
                    self.spi = SpiPhase::AaiData(addr, true, b);
                } else {
                    if self.wel && addr < 0xFF_FFFF && (addr as usize) + 1 < self.flash.len() {
                        self.flash[addr as usize] = d0;
                        self.flash[(addr as usize) + 1] = b;
                        self.aai = Option::Some(addr + 2);
                        self.spi = SpiPhase::SpiIdle;
                    } else {
                        self.aai = Option::None;
                        self.spi = SpiPhase::SpiIdle;
                    }
                }
            },
            _ => {},
        }
        proof {
            assert(self.model() =~= spi_data_step(m0, b));
        }
    }

    /// Queue the bytes of a string command's answer and its terminator.
    fn push_string(&mut self, project: bool)
        ensures
            project ==> final(self).model() == (EcModel {
                out: old(self).model().out + old(self).model().project + seq![36u8],
                ..old(self).model()
            }),
            !project ==> final(self).model() == (EcModel {
                out: old(self).model().out + old(self).model().version + seq![36u8],
                ..old(self).model()
            }),
    {
        let ghost m0 = self.model();
        let n = if project {
            self.project.len()
        } else {
            self.version.len()
        };
        let mut i: usize = 0;
        while i < n
            invariant
                i <= n,
                self.flash@ == m0.flash,
                self.params@ == m0.params,
                self.project@ == m0.project,
                self.version@ == m0.version,
                self.follow == m0.follow,
                self.wel == m0.wel,
                self.stopped == m0.stopped,
                self.start_ack == m0.start_ack,
                self.phase == m0.phase,
                self.spi == m0.spi,
                self.aai == m0.aai,
                project ==> n == self.project@.len() && self.out@ == m0.out
                    + m0.project.subrange(0, i as int),
                !project ==> n == self.version@.len() && self.out@ == m0.out
                    + m0.version.subrange(0, i as int),
            decreases n - i,
        {
            let b = if project {
                self.project[i]
            } else {
                self.version[i]
            };
            self.out.push(b);
            proof {
                if project {
                    assert(self.out@ =~= m0.out + m0.project.subrange(0, i as int + 1));
                } else {
                    assert(self.out@ =~= m0.out + m0.version.subrange(0, i as int + 1));
                }
            }
            i = i + 1;
        }
        self.out.push(36);
        proof {
            if project {
                assert(m0.project.subrange(0, m0.project.len() as int) =~= m0.project);
                assert(self.out@ =~= m0.out + m0.project + seq![36u8]);
                assert(self.model() =~= (EcModel {
                    out: m0.out + m0.project + seq![36u8],
                    ..m0
                }));
            } else {
                assert(m0.version.subrange(0, m0.version.len() as int) =~= m0.version);
                assert(self.out@ =~= m0.out + m0.version + seq![36u8]);
                assert(self.model() =~= (EcModel {
                    out: m0.out + m0.version + seq![36u8],
                    ..m0
                }));
            }
        }
    }
}

impl EcBus for SimEc {
    open spec fn model(&self) -> EcModel {
        EcModel {
            flash: self.flash@,
            params: self.params@,
            project: self.project@,
            version: self.version@,
            out: self.out@,
            follow: self.follow,
            wel: self.wel,
            stopped: self.stopped,
            start_ack: self.start_ack,
            phase: self.phase,
            spi: self.spi,
            aai: self.aai,
        }
    }

    fn bus_cmd(&mut self, b: u8) -> (r: Result<(), EcError>) {
        let ghost m0 = self.model();
        match self.phase {
            Phase::Ready => {
                if self.follow && b == 2 {
                    self.phase = Phase::SpiCmd;
                } else if self.follow && b == 3 {
                    self.phase = Phase::SpiData;
                } else if self.follow && b == 4 {
                    self.sim_spi_read();
                } else if b == 1 {
                    self.follow = true;
                    self.spi = SpiPhase::SpiIdle;
                } else if b == 5 {
                    self.follow = false;
                    self.spi = SpiPhase::SpiIdle;
                } else if b == 0x80 {
                    self.phase = Phase::ParamGet;
                } else if b == 0x81 {
                    self.phase = Phase::ParamSetIdx;
                } else if b == 0x92 {
                    self.push_string(true);
                } else if b == 0x93 {
                    self.push_string(false);
                } else if b == 0xDC {
                    let a = self.start_ack;
                    self.out.push(a);
                } else if b == 0x95 {
                    self.phase = Phase::StopPending;
                }
            },
            Phase::SpiCmd => {
                self.phase = Phase::Ready;
                self.sim_spi_opcode(b);
            },
            Phase::SpiData => {
                self.phase = Phase::Ready;
                self.sim_spi_data(b);
            },
            Phase::ParamGet => {
                self.phase = Phase::Ready;
            },
            Phase::ParamSetIdx => {
                self.phase = Phase::Ready;
            },
            Phase::ParamSetVal(_) => {
                self.phase = Phase::Ready;
            },
            Phase::StopPending => {
                if b == 0xFC {
                    self.stopped = true;
                }
                self.phase = Phase::Ready;
            },
        }
        proof {
            assert(self.model() =~= step_cmd(m0, b));
        }
        Ok(())
    }

    fn bus_write(&mut self, b: u8) -> (r: Result<(), EcError>) {
        let ghost m0 = self.model();
        match self.phase {
            Phase::ParamGet => {
                let v: u8 = if (b as usize) < self.params.len() {
                    self.params[b as usize]
                } else {
                    0
                };
                self.out.push(v);
                self.phase = Phase::Ready;
            },
            Phase::ParamSetIdx => {
                self.phase = Phase::ParamSetVal(b);
            },
            Phase::ParamSetVal(p) => {
                if (p as usize) < self.params.len() {
                    self.params[p as usize] = b;
                }
                self.phase = Phase::Ready;
            },
            _ => {},
        }
        proof {
            assert(self.model() =~= step_write(m0, b));
        }
        Ok(())
    }

    fn bus_read(&mut self) -> (r: Result<u8, EcError>) {
        if self.out.len() == 0 {
            return Err(EcError::Timeout);
        }
        let ghost m0 = self.model();
        let b = self.out.remove(0);
        proof {
            assert(self.model() =~= pop_out(m0));
        }
        Ok(b)
    }
}

} // verus!
