use std::cell::Cell;

use ecflash::{spi_addr_bytes, EcBus, EcError, Flasher, SimEc};

fn sim_with(flash: Vec<u8>, size_param: u8, start_ack: u8) -> SimEc {
    SimEc::new(flash, size_param, start_ack, b"SIMEC".to_vec(), b"07".to_vec())
}

fn flasher_over(flash: Vec<u8>, size_param: u8, start_ack: u8) -> Flasher<SimEc> {
    Flasher::new(sim_with(flash, size_param, start_ack)).unwrap()
}

#[test]
fn size_class_wide() {
    let f = flasher_over(vec![0xFF; 0x20000], 0x80, 51);
    assert_eq!(f.size, 131072);
}

#[test]
fn size_class_narrow() {
    let f = flasher_over(vec![0xFF; 0x10000], 0x00, 51);
    assert_eq!(f.size, 65536);
}

#[test]
fn start_accepted() {
    let mut f = flasher_over(vec![0xFF; 0x10000], 0x00, 51);
    assert_eq!(f.start().unwrap(), 51);
}

#[test]
fn start_rejected() {
    let mut f = flasher_over(vec![0xFF; 0x10000], 0x00, 0);
    assert_eq!(f.start().unwrap(), 0);
    let image = vec![0u8; 16];
    assert_eq!(f.flash(&image), Err(EcError::StartRejected(0)));
}

#[test]
fn read_length_is_size() {
    let mut f = flasher_over(vec![0xABu8; 0x10000], 0x00, 51);
    let buf = f.read(|_n: usize| {}).unwrap();
    assert_eq!(buf.len(), f.size);
    let mut wide = flasher_over(vec![0xCDu8; 0x20000], 0x80, 51);
    let buf2 = wide.read(|_n: usize| {}).unwrap();
    assert_eq!(buf2.len(), 131072);
}

#[test]
fn read_returns_contents() {
    let mut flash = vec![0u8; 0x10000];
    for (i, b) in flash.iter_mut().enumerate() {
        *b = (i % 251) as u8;
    }
    let mut f = flasher_over(flash.clone(), 0x00, 51);
    let buf = f.read(|_n: usize| {}).unwrap();
    assert_eq!(buf, flash);
}

#[test]
fn erase_then_read_all_ff() {
    let mut f = flasher_over(vec![0xAAu8; 0x10000], 0x00, 51);
    f.erase(|_n: usize| {}).unwrap();
    let buf = f.read(|_n: usize| {}).unwrap();
    assert!(buf.iter().all(|&b| b == 0xFF));
    assert_eq!(buf.len(), 65536);
}

#[test]
fn erase_wide_device() {
    let mut f = flasher_over(vec![0x00u8; 0x20000], 0x80, 51);
    f.erase(|_n: usize| {}).unwrap();
    let buf = f.read(|_n: usize| {}).unwrap();
    assert!(buf.iter().all(|&b| b == 0xFF));
    assert_eq!(buf.len(), 131072);
}

#[test]
fn program_then_read_pattern() {
    let image: Vec<u8> = (0..1024u32).map(|i| (i % 256) as u8).collect();
    let mut f = flasher_over(vec![0xFFu8; 0x10000], 0x00, 51);
    f.write(&image, |_n: usize| {}).unwrap();
    let buf = f.read(|_n: usize| {}).unwrap();
    assert_eq!(&buf[..1024], &image[..]);
    assert!(buf[1024..].iter().all(|&b| b == 0xFF));
}

#[test]
fn program_odd_length_rejected() {
    let mut f = flasher_over(vec![0xFFu8; 0x10000], 0x00, 51);
    assert_eq!(f.write(&[1u8, 2, 3], |_n: usize| {}), Err(EcError::InvalidLength(3)));
}

#[test]
fn program_oversized_rejected() {
    let mut f = flasher_over(vec![0xFFu8; 0x10000], 0x00, 51);
    let image = vec![0u8; 0x10002];
    assert_eq!(f.write(&image, |_n: usize| {}), Err(EcError::InvalidLength(0x10002)));
    assert_eq!(f.flash(&image), Err(EcError::InvalidLength(0x10002)));
}

#[test]
fn flash_pads_short_odd_image() {
    // a 7-byte image is padded to word granularity and verified
    let image = vec![7u8; 7];
    let mut f = flasher_over(vec![0xAAu8; 0x10000], 0x00, 51);
    f.flash(&image).unwrap();
    assert_eq!(&f.ec.flash[..7], &image[..]);
    assert!(f.ec.flash[7..].iter().all(|&b| b == 0xFF));
    assert!(f.ec.stopped);
}

#[test]
fn flash_whole_flow() {
    let image: Vec<u8> = (0..4096u32).map(|i| (i * 7 % 256) as u8).collect();
    let mut f = flasher_over(vec![0x5Au8; 0x20000], 0x80, 51);
    f.flash(&image).unwrap();
    assert_eq!(&f.ec.flash[..4096], &image[..]);
    assert!(f.ec.flash[4096..].iter().all(|&b| b == 0xFF));
    assert!(f.ec.stopped);
}

#[test]
fn progress_callback_reports_blocks() {
    let count = Cell::new(0usize);
    let last = Cell::new(0usize);
    let mut f = flasher_over(vec![0xFFu8; 0x10000], 0x00, 51);
    f.erase(|n: usize| {
        count.set(count.get() + 1);
        last.set(n);
    })
    .unwrap();
    assert_eq!(count.get(), 64);
    assert_eq!(last.get(), 65536);
}

#[test]
fn spi_address_validation() {
    // any bit in the top byte rejects the address
    assert_eq!(spi_addr_bytes(0x0100_0000), Err(EcError::InvalidAddress(0x0100_0000)));
    assert_eq!(spi_addr_bytes(0xFF00_0000), Err(EcError::InvalidAddress(0xFF00_0000)));
    assert_eq!(spi_addr_bytes(0x00FF_FFFF), Ok((0xFF, 0xFF, 0xFF)));
    assert_eq!(spi_addr_bytes(0x0012_3456), Ok((0x12, 0x34, 0x56)));
    assert_eq!(spi_addr_bytes(0), Ok((0, 0, 0)));
}

#[test]
fn bus_read_times_out_when_idle() {
    let mut sim = sim_with(vec![0xFF; 0x10000], 0x00, 51);
    assert_eq!(sim.bus_read(), Err(EcError::Timeout));
}

#[test]
fn stop_marks_session_over() {
    let mut f = flasher_over(vec![0xFFu8; 0x10000], 0x00, 51);
    f.stop().unwrap();
    assert!(f.ec.stopped);
}

#[test]
fn error_descriptions_nonempty() {
    let errors = [
        EcError::Timeout,
        EcError::UnknownEc(1),
        EcError::StartRejected(0),
        EcError::InvalidAddress(0x0100_0000),
        EcError::InvalidLength(3),
        EcError::EraseMismatch(0, 0),
        EcError::ProgramMismatch(0, 0, 1),
        EcError::Unstable,
    ];
    for e in errors.iter() {
        assert!(!e.describe().is_empty());
    }
}
