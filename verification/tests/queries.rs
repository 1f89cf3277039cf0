use ecflash::{
    accept_pair, accept_pair_size, check_id, size_of_class, validate, validate_size, Ec, EcError,
    EcFile, EcFlash, PortIo, StrQuery,
};

fn file_from(bytes: &[u8]) -> EcFile {
    EcFile::new(bytes.to_vec())
}

#[test]
fn identify_image() {
    // a 64 KiB image carrying one project tag and one version tag
    let mut data = vec![0u8; 65536];
    data[0x100..0x104].copy_from_slice(b"PRJ:");
    data[0x104..0x10A].copy_from_slice(b"GALP5$");
    data[0x200..0x204].copy_from_slice(b"VER:");
    data[0x204..0x20A].copy_from_slice(b" 1.07$");
    let mut ec = EcFile::new(data);
    assert_eq!(ec.project(), "GALP5");
    assert_eq!(ec.version(), "1.07");
    assert_eq!(ec.size(), 65536);
}

#[test]
fn project_of_unique_tag() {
    let mut ec = file_from(b"xxPRJ:ABC$yy");
    assert_eq!(ec.project(), "ABC");
}

#[test]
fn project_near_match_restarts() {
    // the scanner must advance on a first byte that restarts the key
    let mut ec = file_from(b"PPRJ:A$");
    assert_eq!(ec.project(), "A");
    let mut ec2 = file_from(b"PRPRJ:B$");
    assert_eq!(ec2.project(), "B");
}

#[test]
fn version_strips_leading_spaces() {
    let mut ec = file_from(b"VER:   X$");
    assert_eq!(ec.version(), "X");
}

#[test]
fn version_without_spaces() {
    let mut ec = file_from(b"VER:1.07$");
    assert_eq!(ec.version(), "1.07");
}

#[test]
fn missing_tag_yields_empty() {
    let mut ec = file_from(b"no tags here");
    assert_eq!(ec.project(), "");
    assert_eq!(ec.version(), "");
}

#[test]
fn size_is_input_length() {
    let mut ec = file_from(b"abcdef");
    assert_eq!(ec.size(), 6);
    let mut empty = file_from(b"");
    assert_eq!(empty.size(), 0);
}

#[test]
fn file_queries_idempotent() {
    let mut ec = file_from(b"PRJ:ONE$ VER: 2.0$");
    let p1 = ec.project();
    let p2 = ec.project();
    assert_eq!(p1, p2);
    let v1 = ec.version();
    let v2 = ec.version();
    assert_eq!(v1, v2);
    assert_eq!(ec.size(), ec.size());
}

#[test]
fn get_str_with_custom_key() {
    let mut ec = file_from(b"..KEY=VALUE$..");
    assert_eq!(ec.get_str(b"KEY="), "VALUE");
}

#[test]
fn unterminated_value_runs_to_end() {
    let mut ec = file_from(b"PRJ:TAIL");
    assert_eq!(ec.project(), "TAIL");
}

/// A port-level EC simulation: Super-I/O identity, status-bit handshake,
/// parameters, and the two string commands.
struct SimPorts {
    id: u16,
    sio_index: u8,
    params: Vec<u8>,
    out: Vec<u8>,
    phase: u8,
    pending_param: u8,
    project: Vec<u8>,
    version: Vec<u8>,
}

impl SimPorts {
    fn new(id: u16, size_param: u8, project: &[u8], version: &[u8]) -> SimPorts {
        let mut params = vec![0u8; 256];
        params[0xE5] = size_param;
        SimPorts {
            id,
            sio_index: 0,
            params,
            out: Vec::new(),
            phase: 0,
            pending_param: 0,
            project: project.to_vec(),
            version: version.to_vec(),
        }
    }
}

impl PortIo for SimPorts {
    fn port_in(&mut self, port: u16) -> u8 {
        match port {
            0x2F => {
                if self.sio_index == 0x20 {
                    (self.id >> 8) as u8
                } else {
                    (self.id & 0xFF) as u8
                }
            }
            0x66 => {
                if self.out.is_empty() {
                    0
                } else {
                    1
                }
            }
            0x62 => {
                if self.out.is_empty() {
                    0
                } else {
                    self.out.remove(0)
                }
            }
            _ => 0,
        }
    }

    fn port_out(&mut self, port: u16, value: u8) {
        match port {
            0x2E => {
                self.sio_index = value;
            }
            0x66 => match value {
                0x80 => {
                    self.phase = 1;
                }
                0x81 => {
                    self.phase = 2;
                }
                0x92 => {
                    let p = self.project.clone();
                    self.out.extend(p);
                    self.out.push(b'$');
                }
                0x93 => {
                    let v = self.version.clone();
                    self.out.extend(v);
                    self.out.push(b'$');
                }
                _ => {
                    self.phase = 0;
                }
            },
            0x62 => match self.phase {
                1 => {
                    let v = self.params[value as usize];
                    self.out.push(v);
                    self.phase = 0;
                }
                2 => {
                    self.pending_param = value;
                    self.phase = 3;
                }
                3 => {
                    self.params[self.pending_param as usize] = value;
                    self.phase = 0;
                }
                _ => {}
            },
            _ => {}
        }
    }
}

#[test]
fn live_size_class_wide() {
    let sim = SimPorts::new(0x8587, 0x80, b"SIMEC", b"07");
    let mut ec = EcFlash::new(sim, true).unwrap();
    assert_eq!(ec.size(), 131072);
}

#[test]
fn live_size_class_narrow() {
    let sim = SimPorts::new(0x8587, 0x00, b"SIMEC", b"07");
    let mut ec = EcFlash::new(sim, true).unwrap();
    assert_eq!(ec.size(), 65536);
}

#[test]
fn live_queries() {
    let sim = SimPorts::new(0x5570, 0x00, b"SIMEC", b"07");
    let mut ec = EcFlash::new(sim, true).unwrap();
    assert_eq!(ec.project(), "SIMEC");
    assert_eq!(ec.version(), "1.07");
}

#[test]
fn unknown_ec_rejected() {
    let sim = SimPorts::new(0x1234, 0x00, b"", b"");
    match EcFlash::new(sim, true) {
        Err(EcError::UnknownEc(id)) => assert_eq!(id, 0x1234),
        _ => panic!("expected an unknown EC id"),
    }
}

#[test]
fn channel_ports_by_index() {
    let a = EcFlash::new(SimPorts::new(0x8587, 0, b"", b""), true).unwrap();
    assert_eq!((a.data_port, a.cmd_port), (0x62, 0x66));
    let b = EcFlash::new(SimPorts::new(0x8587, 0, b"", b""), false).unwrap();
    assert_eq!((b.data_port, b.cmd_port), (0x68, 0x6C));
    let expected = [(0x60u16, 0x64u16), (0x62, 0x66), (0x68, 0x6C), (0x6A, 0x6E)];
    for (i, ports) in expected.iter().enumerate() {
        let ec = EcFlash::new_index(SimPorts::new(0x8587, 0, b"", b""), i as u8).unwrap();
        assert_eq!((ec.data_port, ec.cmd_port), *ports);
        assert_eq!(ec.primary, i == 1);
    }
    assert!(EcFlash::new_index(SimPorts::new(0x8587, 0, b"", b""), 4).is_err());
}

/// A binding whose project answer changes on every read.
struct FlakyEc {
    calls: usize,
    settle_after: usize,
}

impl Ec for FlakyEc {
    fn size(&mut self) -> usize {
        65536
    }

    fn project(&mut self) -> String {
        self.calls += 1;
        if self.calls > self.settle_after {
            String::from("STEADY")
        } else {
            format!("NOISE{}", self.calls)
        }
    }

    fn version(&mut self) -> String {
        String::from("1.00")
    }
}

#[test]
fn validate_accepts_stable_value() {
    let mut ec = file_from(b"PRJ:GALP3$");
    assert_eq!(validate(&mut ec, StrQuery::Project, 8).unwrap(), "GALP3");
    let mut ec2 = file_from(b"VER: 9.9$");
    assert_eq!(validate(&mut ec2, StrQuery::Version, 8).unwrap(), "9.9");
    assert_eq!(validate_size(&mut ec, 8).unwrap(), 10);
}

#[test]
fn validate_settles_after_retries() {
    let mut ec = FlakyEc { calls: 0, settle_after: 5 };
    assert_eq!(validate(&mut ec, StrQuery::Project, 8).unwrap(), "STEADY");
}

#[test]
fn validate_gives_up_on_noise() {
    let mut ec = FlakyEc { calls: 0, settle_after: 1000 };
    assert_eq!(validate(&mut ec, StrQuery::Project, 8), Err(EcError::Unstable));
}

#[test]
fn acceptance_rule() {
    assert_eq!(
        accept_pair(String::from("GALP5"), &String::from("GALP5")),
        Some(String::from("GALP5"))
    );
    assert_eq!(accept_pair(String::from("GALP5"), &String::from("GALP6")), None);
    assert_eq!(accept_pair_size(65536, 65536), Some(65536));
    assert_eq!(accept_pair_size(65536, 131072), None);
}

#[test]
fn size_class_decision() {
    assert_eq!(size_of_class(Ok(0x80)), 131072);
    assert_eq!(size_of_class(Ok(0x00)), 65536);
    assert_eq!(size_of_class(Ok(0x81)), 65536);
    assert_eq!(size_of_class(Err(EcError::Timeout)), 65536);
}

#[test]
fn id_decision() {
    assert_eq!(check_id(0x85, 0x87), Ok(0x8587));
    assert_eq!(check_id(0x55, 0x70), Ok(0x5570));
    assert_eq!(check_id(0x12, 0x34), Err(EcError::UnknownEc(0x1234)));
    assert_eq!(check_id(0x00, 0x00), Err(EcError::UnknownEc(0)));
}
