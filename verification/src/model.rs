use vstd::prelude::*;

verus! {

/// What the next byte sent to the command port means to the EC's parser.
#[derive(Clone, Copy, PartialEq, Eq, Structural, Debug)]
pub enum Phase {
    /// The next command byte starts a fresh command.
    Ready,
    /// After control byte 2: the next command byte is a SPI opcode.
    SpiCmd,
    /// After control byte 3: the next command byte is SPI payload.
    SpiData,
    /// After 0x80: the next data write selects the parameter to report.
    ParamGet,
    /// After 0x81: the next data write selects the parameter to store.
    ParamSetIdx,
    /// The following data write stores the value of the selected parameter.
    ParamSetVal(u8),
    /// After 0x95: a 0xFC powers the system down.
    StopPending,
}

/// The state of the SPI transaction that follow mode is forwarding.
#[derive(Clone, Copy, PartialEq, Eq, Structural, Debug)]
pub enum SpiPhase {
    /// No transaction is open.
    SpiIdle,
    /// 0x05 is active: each popped byte is the status register.
    Status,
    /// 0x0B: collecting three address bytes and one dummy byte.
    ReadAddr(u8, u32),
    /// Streaming reads from the given flash offset.
    ReadData(u32),
    /// 0xD7: collecting the sector byte, the block byte and a pad byte.
    EraseAddr(u8, u8, u8),
    /// The first 0xAD of a run: collecting three address bytes.
    AaiAddr(u8, u32),
    /// Collecting the two data bytes of one AAI word.
    AaiData(u32, bool, u8),
}

/// The command-level model of the EC, its attached SPI flash, and the
/// bytes it has queued for the host.
#[verifier::ext_equal]
pub ghost struct EcModel {
    /// The contents of the attached SPI NOR flash.
    pub flash: Seq<u8>,
    /// The 256 parameter bytes reachable through 0x80/0x81.
    pub params: Seq<u8>,
    /// The bytes the project string command 0x92 yields, without the terminator.
    pub project: Seq<u8>,
    /// The bytes the version string command 0x93 yields, without the terminator.
    pub version: Seq<u8>,
    /// Bytes queued for the host to read from the data port.
    pub out: Seq<u8>,
    /// Whether follow mode forwards command bytes to the SPI flash.
    pub follow: bool,
    /// The write-enable latch of the flash.
    pub wel: bool,
    /// Whether the stop sequence has been accepted.
    pub stopped: bool,
    /// The byte acknowledging the start command 0xDC.
    pub start_ack: u8,
    pub phase: Phase,
    pub spi: SpiPhase,
    /// The next word address while an AAI run is open.
    pub aai: Option<u32>,
}

/// The SPI status register: BUSY is bit 0 (always clear in this model,
/// operations complete instantly) and WEL is bit 1.
pub open spec fn status_byte(m: EcModel) -> u8 {
    if m.wel {
        2
    } else {
        0
    }
}

/// The byte a read of the flash yields at an offset; 0xFF past the end.
pub open spec fn flash_at(f: Seq<u8>, i: u32) -> u8 {
    if (i as int) < f.len() {
        f[i as int]
    } else {
        0xFF
    }
}

/// Shift one more address byte into a 24-bit SPI address.
pub open spec fn acc_addr(a: u32, b: u8) -> u32 {
    ((a as int % 0x10000) * 0x100 + b as int) as u32
}

/// Advance a streaming read pointer without wrapping.
pub open spec fn next_ptr(p: u32) -> u32 {
    if p < 0xFFFF_FFFFu32 {
        (p + 1) as u32
    } else {
        p
    }
}

/// Overwrite `n` bytes of `f` starting at `start` with 0xFF.
pub open spec fn ff_range(f: Seq<u8>, start: int, n: int) -> Seq<u8> {
    Seq::new(f.len(), |i: int| if start <= i < start + n { 0xFFu8 } else { f[i] })
}

pub open spec fn param_at(ps: Seq<u8>, i: u8) -> u8 {
    if (i as int) < ps.len() {
        ps[i as int]
    } else {
        0
    }
}

pub open spec fn param_set(ps: Seq<u8>, i: u8, v: u8) -> Seq<u8> {
    if (i as int) < ps.len() {
        ps.update(i as int, v)
    } else {
        ps
    }
}

/// The effect of popping one SPI byte (control byte 4): the EC queues the
/// next byte of the open transaction for the host.
pub open spec fn spi_read_step(m: EcModel) -> EcModel {
    match m.spi {
        SpiPhase::Status => EcModel { out: m.out.push(status_byte(m)), ..m },
        SpiPhase::ReadData(ptr) => EcModel {
            out: m.out.push(flash_at(m.flash, ptr)),
            spi: SpiPhase::ReadData(next_ptr(ptr)),
            ..m
        },
        _ => EcModel { out: m.out.push(0), ..m },
    }
}

/// The effect of a SPI opcode arriving after control byte 2.
pub open spec fn spi_opcode_step(m: EcModel, c: u8) -> EcModel {
    if c == 0x05 {
        EcModel { spi: SpiPhase::Status, ..m }
    } else if c == 0x06 {
        EcModel { wel: true, spi: SpiPhase::SpiIdle, ..m }
    } else if c == 0x04 {
        EcModel { wel: false, aai: Option::None, spi: SpiPhase::SpiIdle, ..m }
    } else if c == 0x0B {
        EcModel { spi: SpiPhase::ReadAddr(0, 0), ..m }
    } else if c == 0xD7 {
        EcModel { spi: SpiPhase::EraseAddr(0, 0, 0), ..m }
    } else if c == 0xAD {
        match m.aai {
            Option::Some(a) => EcModel { spi: SpiPhase::AaiData(a, false, 0), ..m },
            Option::None => EcModel { spi: SpiPhase::AaiAddr(0, 0), ..m },
        }
    } else {
        EcModel { spi: SpiPhase::SpiIdle, ..m }
    }
}

/// The effect of a SPI payload byte arriving after control byte 3.
pub open spec fn spi_data_step(m: EcModel, b: u8) -> EcModel {
    match m.spi {
        SpiPhase::ReadAddr(n, addr) => {
            if n < 3 {
                EcModel { spi: SpiPhase::ReadAddr((n + 1) as u8, acc_addr(addr, b)), ..m }
            } else {
                // the dummy byte of the fast-read command
                EcModel { spi: SpiPhase::ReadData(addr), ..m }
            }
        },
        SpiPhase::EraseAddr(n, sec, blk) => {
            if n == 0 {
                EcModel { spi: SpiPhase::EraseAddr(1, b, 0), ..m }
            } else if n == 1 {
                EcModel { spi: SpiPhase::EraseAddr(2, sec, b), ..m }
            } else {
                // the pad byte: the 1 KiB erase fires if the latch is set
                let base = sec as int * 0x10000 + blk as int * 0x400;
                if m.wel && base + 0x400 <= m.flash.len() {
                    EcModel {
                        flash: ff_range(m.flash, base, 0x400),
                        wel: false,
                        spi: SpiPhase::SpiIdle,
                        ..m
                    }
                } else {
                    EcModel { wel: false, spi: SpiPhase::SpiIdle, ..m }
                }
            }
        },
        SpiPhase::AaiAddr(n, addr) => {
            if n < 2 {
                EcModel { spi: SpiPhase::AaiAddr((n + 1) as u8, acc_addr(addr, b)), ..m }
            } else {
                EcModel { spi: SpiPhase::AaiData(acc_addr(addr, b), false, 0), ..m }
            }
        },
        SpiPhase::AaiData(addr, have, d0) => {
            if !have {
                EcModel { spi: SpiPhase::AaiData(addr, true, b), ..m }
            } else {
                // the second data byte: the word programs if the latch is set
                if m.wel && addr < 0xFF_FFFFu32 && addr as int + 1 < m.flash.len() {
                    EcModel {
                        flash: m.flash.update(addr as int, d0).update(addr as int + 1, b),
                        aai: Option::Some((addr + 2) as u32),
                        spi: SpiPhase::SpiIdle,
                        ..m
                    }
                } else {
                    EcModel { aai: Option::None, spi: SpiPhase::SpiIdle, ..m }
                }
            }
        },
        _ => m,
    }
}

/// The effect of one byte written to the command port.
pub open spec fn step_cmd(m: EcModel, b: u8) -> EcModel {
    match m.phase {
        Phase::Ready => {
            if m.follow && b == 2 {
                EcModel { phase: Phase::SpiCmd, ..m }
            } else if m.follow && b == 3 {
                EcModel { phase: Phase::SpiData, ..m }
            } else if m.follow && b == 4 {
                spi_read_step(m)
            } else if b == 1 {
                EcModel { follow: true, spi: SpiPhase::SpiIdle, ..m }
            } else if b == 5 {
                EcModel { follow: false, spi: SpiPhase::SpiIdle, ..m }
            } else if b == 0x80 {
                EcModel { phase: Phase::ParamGet, ..m }
            } else if b == 0x81 {
                EcModel { phase: Phase::ParamSetIdx, ..m }
            } else if b == 0x92 {
                EcModel { out: m.out + m.project + seq![36u8], ..m }
            } else if b == 0x93 {
                EcModel { out: m.out + m.version + seq![36u8], ..m }
            } else if b == 0xDC {
                EcModel { out: m.out.push(m.start_ack), ..m }
            } else if b == 0x95 {
                EcModel { phase: Phase::StopPending, ..m }
            } else {
                m
            }
        },
        Phase::SpiCmd => spi_opcode_step(EcModel { phase: Phase::Ready, ..m }, b),
        Phase::SpiData => spi_data_step(EcModel { phase: Phase::Ready, ..m }, b),
        Phase::ParamGet => EcModel { phase: Phase::Ready, ..m },
        Phase::ParamSetIdx => EcModel { phase: Phase::Ready, ..m },
        Phase::ParamSetVal(_) => EcModel { phase: Phase::Ready, ..m },
        Phase::StopPending => {
            if b == 0xFC {
                EcModel { stopped: true, phase: Phase::Ready, ..m }
            } else {
                EcModel { phase: Phase::Ready, ..m }
            }
        },
    }
}

/// The effect of one byte written to the data port.
pub open spec fn step_write(m: EcModel, b: u8) -> EcModel {
    match m.phase {
        Phase::ParamGet => EcModel {
            out: m.out.push(param_at(m.params, b)),
            phase: Phase::Ready,
            ..m
        },
        Phase::ParamSetIdx => EcModel { phase: Phase::ParamSetVal(b), ..m },
        Phase::ParamSetVal(p) => EcModel {
            params: param_set(m.params, p, b),
            phase: Phase::Ready,
            ..m
        },
        _ => m,
    }
}

/// The state after the host reads one queued byte from the data port.
pub open spec fn pop_out(m: EcModel) -> EcModel {
    EcModel { out: m.out.subrange(1, m.out.len() as int), ..m }
}

/// A channel at rest: nothing queued, no open transaction, follow mode off.
pub open spec fn quiet(m: EcModel) -> bool {
    &&& m.phase == Phase::Ready
    &&& m.out.len() == 0
    &&& !m.follow
    &&& m.spi == SpiPhase::SpiIdle
    &&& m.aai is None
}

} // verus!
