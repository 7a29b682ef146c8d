use stlink::link::enums::{Cmd, DebugMode, Direction, STLinkMode};
use stlink::link::link::init::confirms;
use stlink::link::link::step::{LinkError, Reply, Response, Step, TargetVoltage, Transfer};
use stlink::link::link::Link;
use stlink::link::structs::{Endpoint, FlashInfo, SRamInfo, STLinkUSBVersion, SysMemInfo};

/// A probe that answers the commands of a session from what it is set up
/// with, and notes what it is asked.
struct Fixture {
    wrapped: bool,
    version_reply: Vec<u8>,
    extended_reply: Vec<u8>,
    mode_bytes: Vec<u8>,
    voltage_reply: Vec<u8>,
    cr_values: Vec<u32>,
    idcode: u32,
    flash_kib: u16,
    cpuid: u32,
    mem_base: u32,
    mem: Vec<u8>,
    status_byte: u8,
    frequencies: Vec<u32>,
    fail_versions: usize,
    commands: Vec<Vec<u8>>,
    payloads: Vec<Vec<u8>>,
    reads: Vec<usize>,
    pauses: usize,
    pending_reply: Option<Vec<u8>>,
    awaiting_payload: bool,
}

fn version_reply(generation: u16, jtag: u16, swim: u16, vid: u16, pid: u16) -> Vec<u8> {
    let word = (generation << 12) | (jtag << 6) | swim;
    vec![
        (word >> 8) as u8,
        word as u8,
        vid as u8,
        (vid >> 8) as u8,
        pid as u8,
        (pid >> 8) as u8,
    ]
}

fn fixture_v2() -> Fixture {
    Fixture {
        wrapped: false,
        version_reply: version_reply(2, 27, 0, 0x0483, 0x3748),
        extended_reply: vec![0; 12],
        mode_bytes: vec![0x02],
        voltage_reply: vec![100, 0, 0, 0, 125, 0, 0, 0],
        cr_values: vec![0x0000_0000],
        idcode: 0x1000_6413,
        flash_kib: 1024,
        cpuid: 0x410F_C241,
        mem_base: 0x0800_0000,
        mem: vec![0xA0, 0xA1, 0xA2, 0xA3, 0xA4, 0xA5, 0xA6, 0xA7],
        status_byte: 0x80,
        frequencies: vec![24000, 8000, 3300, 1000],
        fail_versions: 0,
        commands: Vec::new(),
        payloads: Vec::new(),
        reads: Vec::new(),
        pauses: 0,
        pending_reply: None,
        awaiting_payload: false,
    }
}

fn word(bytes: &[u8]) -> u32 {
    (bytes[0] as u32) | (bytes[1] as u32) << 8 | (bytes[2] as u32) << 16 | (bytes[3] as u32) << 24
}

fn le32(value: u32) -> Vec<u8> {
    vec![value as u8, (value >> 8) as u8, (value >> 16) as u8, (value >> 24) as u8]
}

impl Fixture {
    fn next_mode(&mut self) -> u8 {
        if self.mode_bytes.len() > 1 {
            self.mode_bytes.remove(0)
        } else {
            self.mode_bytes[0]
        }
    }

    fn next_cr(&mut self) -> u32 {
        if self.cr_values.len() > 1 {
            self.cr_values.remove(0)
        } else {
            self.cr_values[0]
        }
    }

    fn memory(&self, address: u32, len: usize) -> Vec<u8> {
        (0..len)
            .map(|i| {
                let at = address.wrapping_add(i as u32).wrapping_sub(self.mem_base) as usize;
                if at < self.mem.len() {
                    self.mem[at]
                } else {
                    0
                }
            })
            .collect()
    }

    fn status_reply(&self, len: usize) -> Vec<u8> {
        let mut reply = vec![0u8; len];
        reply[0] = self.status_byte;
        reply
    }

    fn answer(&mut self, text: &[u8]) -> Option<Vec<u8>> {
        match text[0] {
            0xF1 => Some(self.version_reply.clone()),
            0xFB => Some(self.extended_reply.clone()),
            0xF5 => Some(vec![self.next_mode(), 0]),
            0xF7 => Some(self.voltage_reply.clone()),
            0xF3 => Some(vec![0x80, 0]),
            0xF4 => None,
            0xF2 => match text[1] {
                0x35 | 0x0F => Some(vec![0x80, 0]),
                0x36 => {
                    let address = word(&text[2..6]);
                    let value = match address {
                        0x4002_3C10 => self.next_cr(),
                        0xE004_2000 => self.idcode,
                        _ => 0,
                    };
                    let mut reply = vec![0x80, 0, 0, 0];
                    reply.extend(le32(value));
                    Some(reply)
                },
                0x0C | 0x07 => {
                    let address = word(&text[2..6]);
                    let len = (text[6] as usize) | (text[7] as usize) << 8;
                    if address == 0x1FFF_7A22 {
                        Some(vec![self.flash_kib as u8, (self.flash_kib >> 8) as u8])
                    } else if address == 0xE000_ED00 {
                        let mut reply = le32(self.cpuid);
                        reply.resize(len, 0);
                        Some(reply)
                    } else if len == 0 {
                        None
                    } else {
                        Some(self.memory(address, len))
                    }
                },
                0x0D | 0x08 => {
                    self.awaiting_payload = true;
                    None
                },
                0x3B => Some(self.status_reply(2)),
                0x3E => Some(self.status_reply(12)),
                0x30 | 0x20 => {
                    if text[1] == 0x30 {
                        Some(vec![0x80, 0])
                    } else {
                        None
                    }
                },
                0x01 => Some(vec![0x81, 0]),
                0x33 => Some(vec![0x80, 0, 0, 0, 0x78, 0x56, 0x34, 0x12]),
                0x05 => Some(vec![0x78, 0x56, 0x34, 0x12]),
                0x3A => Some((0..88).map(|i| i as u8).collect()),
                0x04 => Some((0..84).map(|i| i as u8).collect()),
                0x31 => Some(vec![0x80, 0, 0, 0, 0x77, 0x14, 0xA0, 0x2B, 0, 0, 0, 0]),
                0x22 => Some(vec![0x77, 0x14, 0xA0, 0x1B]),
                0x62 => {
                    let mut reply = vec![0u8; 52];
                    reply[8] = self.frequencies.len() as u8;
                    for (i, f) in self.frequencies.iter().enumerate() {
                        if 12 + 4 * i + 4 <= 52 {
                            reply[12 + 4 * i..16 + 4 * i].copy_from_slice(&le32(*f));
                        }
                    }
                    Some(reply)
                },
                0x61 => Some(vec![0x80, 0, 0, 0, 0, 0, 0, 0]),
                _ => Some(vec![0x80, 0]),
            },
            _ => None,
        }
    }

    fn perform(&mut self, transfer: Transfer) -> Response {
        match transfer {
            Transfer::Write { endpoint: _, data } => {
                if self.awaiting_payload {
                    self.awaiting_payload = false;
                    let n = data.len();
                    self.payloads.push(data);
                    return Response::Written(n);
                }
                let text: Vec<u8> = if self.wrapped {
                    data[15..].to_vec()
                } else {
                    data.clone()
                };
                if text[0] == 0xF1 && self.fail_versions > 0 {
                    self.fail_versions -= 1;
                    self.commands.push(data);
                    return Response::Failed;
                }
                self.pending_reply = self.answer(&text);
                let n = data.len();
                self.commands.push(data);
                Response::Written(n)
            },
            Transfer::Read { endpoint: _, len } => {
                self.reads.push(len);
                match self.pending_reply.take() {
                    Some(mut reply) => {
                        reply.truncate(len);
                        Response::Received(reply)
                    },
                    None => Response::Received(vec![0x55; 13]),
                }
            },
            Transfer::Pause { seconds: _ } => {
                self.pauses += 1;
                Response::Resumed
            },
        }
    }
}

fn drive(link: &mut Link, first: Step, probe: &mut Fixture) -> Result<Reply, LinkError> {
    let mut step = first;
    loop {
        match step {
            Step::Transfer(transfer) => {
                let response = probe.perform(transfer);
                step = link.resume(response);
            },
            Step::Finished(result) => return result,
        }
    }
}

fn three_endpoints() -> Vec<Endpoint> {
    vec![
        Endpoint { config: 1, iface: 0, setting: 0, address: 0x81 },
        Endpoint { config: 1, iface: 0, setting: 0, address: 0x02 },
        Endpoint { config: 1, iface: 0, setting: 0, address: 0x83 },
    ]
}

fn opened_v2(probe: &mut Fixture) -> Link {
    let (mut link, step) =
        match Link::open_usb(&three_endpoints(), 0x0483, 0x3748, 3, DebugMode::SWD) {
            Ok(pair) => pair,
            Err(e) => panic!("not opened: {:?}", e),
        };
    let result = drive(&mut link, step, probe);
    assert!(matches!(result, Ok(Reply::Done)));
    probe.commands.clear();
    probe.reads.clear();
    link
}

fn versioned(pid: u16, probe: &mut Fixture) -> Link {
    let mut link = Link::new(0x0483, pid);
    let step = link.version();
    let result = drive(&mut link, step, probe);
    assert!(matches!(result, Ok(Reply::Identity { .. })));
    probe.commands.clear();
    probe.reads.clear();
    link
}

#[test]
fn open_against_simulated_v2_probe_gives_the_version_record() {
    let mut probe = fixture_v2();
    let link = opened_v2(&mut probe);
    assert_eq!(
        link.usb_version(),
        STLinkUSBVersion { stlink: 2, jtag: 27, swim: 0, jtag_api: 2, flags: 0x01 | 0x10 | 0x02 | 0x04 | 0x08 }
    );
    assert!(link.is_idle());
}

#[test]
fn open_detects_the_packet_size_and_fills_the_memory_map() {
    let mut probe = fixture_v2();
    let link = opened_v2(&mut probe);
    assert_eq!(link.burst(), 4096);
    assert_eq!(link.max_packet(), 64);
    let map = link.memory();
    assert_eq!(map.flash, FlashInfo { base: 0x0800_0000, size: 1024, pagesize: Some(0x4000) });
    assert_eq!(map.ram, vec![SRamInfo { base: 0x2000_0000, size: 0x30000 }]);
    assert_eq!(map.sys, SysMemInfo { base: 0x1FFF_0000, size: 0x7800 });
}

#[test]
fn open_keeps_one_kib_packets_for_other_cores() {
    let mut probe = fixture_v2();
    probe.cpuid = 0x410C_C200;
    let link = opened_v2(&mut probe);
    assert_eq!(link.burst(), 1024);
    assert_eq!(link.max_packet(), 64);
}

#[test]
fn open_refuses_a_device_without_three_endpoints() {
    let two = vec![
        Endpoint { config: 1, iface: 0, setting: 0, address: 0x81 },
        Endpoint { config: 1, iface: 0, setting: 0, address: 0x02 },
    ];
    assert!(matches!(
        Link::open_usb(&two, 0x0483, 0x3748, 3, DebugMode::SWD),
        Err(LinkError::NotAProbe)
    ));
}

#[test]
fn open_retries_the_handshake_of_generation_1_after_a_pause() {
    let mut probe = fixture_v2();
    probe.wrapped = true;
    probe.version_reply = version_reply(1, 11, 0, 0x0483, 0x3744);
    probe.fail_versions = 2;
    let (mut link, step) = Link::open_usb(&three_endpoints(), 0x0483, 0x3744, 3, DebugMode::SWD)
        .ok()
        .unwrap();
    let result = drive(&mut link, step, &mut probe);
    assert_eq!(probe.pauses, 2);
    assert_eq!(link.usb_version().stlink, 1);
    assert_eq!(link.usb_version().jtag, 11);
    assert_eq!(link.usb_version().jtag_api, 2);
    assert!(matches!(result, Ok(Reply::Done)));
    assert_eq!(link.burst(), 4096);
}

#[test]
fn open_gives_up_when_the_tries_are_used() {
    let mut probe = fixture_v2();
    probe.wrapped = true;
    probe.fail_versions = 5;
    let (mut link, step) = Link::open_usb(&three_endpoints(), 0x0483, 0x3744, 1, DebugMode::SWD)
        .ok()
        .unwrap();
    let result = drive(&mut link, step, &mut probe);
    assert!(matches!(result, Err(LinkError::TransportFailure)));
    assert_eq!(probe.pauses, 1);
    assert!(link.is_idle());
}

#[test]
fn open_does_not_retry_on_generation_2() {
    let mut probe = fixture_v2();
    probe.fail_versions = 1;
    let (mut link, step) = Link::open_usb(&three_endpoints(), 0x0483, 0x3748, 3, DebugMode::SWD)
        .ok()
        .unwrap();
    let result = drive(&mut link, step, &mut probe);
    assert!(matches!(result, Err(LinkError::TransportFailure)));
    assert_eq!(probe.pauses, 0);
}

#[test]
fn open_refuses_swim_without_swim_firmware() {
    let mut probe = fixture_v2();
    let (mut link, step) = Link::open_usb(&three_endpoints(), 0x0483, 0x3748, 3, DebugMode::SWIM)
        .ok()
        .unwrap();
    let result = drive(&mut link, step, &mut probe);
    assert!(matches!(result, Err(LinkError::UnsupportedFeature)));
}

#[test]
fn fresh_session_follows_the_product_identifier() {
    let v1 = Link::new(0x0483, 0x3744);
    assert_eq!(v1.usb_version(), STLinkUSBVersion { stlink: 1, jtag: 0, swim: 0, jtag_api: 1, flags: 0 });
    assert_eq!(Link::new(0x0483, 0x3748).usb_version().stlink, 2);
    assert_eq!(Link::new(0x0483, 0x374B).usb_version().stlink, 2);
    assert_eq!(Link::new(0x0483, 0x374E).usb_version().stlink, 3);
    assert_eq!(Link::new(0x0483, 0x1234).usb_version().stlink, 2);
    assert_eq!(v1.max_packet(), 64);
    assert_eq!(Link::new(0x0483, 0x3748).max_packet(), 64);
    assert_eq!(Link::new(0x0483, 0x374F).max_packet(), 512);
    assert_eq!(v1.burst(), 4096);
}

#[test]
fn endpoints_follow_the_product_identifier() {
    assert_eq!(Link::new(0x0483, 0x3744).endpoints(), (0x02, 0x81, 0x00));
    assert_eq!(Link::new(0x0483, 0x3748).endpoints(), (0x02, 0x81, 0x83));
    assert_eq!(Link::new(0x0483, 0x374B).endpoints(), (0x01, 0x81, 0x82));
    assert_eq!(Link::new(0x0483, 0x3752).endpoints(), (0x01, 0x81, 0x82));
    for pid in [0x374Du16, 0x374E, 0x374F, 0x3753] {
        assert_eq!(Link::new(0x0483, pid).endpoints(), (0x01, 0x81, 0x82));
    }
    assert_eq!(Link::new(0x0483, 0xABCD).endpoints(), (0x02, 0x81, 0x83));
    assert_eq!(Link::new(0x0483, 0x3748).identity(), (0x0483, 0x3748));
}

#[test]
fn commands_go_to_the_endpoint_of_the_generation() {
    for (pid, tx) in [(0x3744u16, 0x02u8), (0x3748, 0x02), (0x374B, 0x01), (0x3752, 0x01), (0x374F, 0x01)] {
        let mut link = Link::new(0x0483, pid);
        match link.current_mode() {
            Step::Transfer(Transfer::Write { endpoint, .. }) => assert_eq!(endpoint, tx),
            _ => panic!("no write"),
        }
        match link.resume(Response::Written(if pid == 0x3744 { 16 } else { 1 })) {
            Step::Transfer(Transfer::Read { endpoint, len }) => {
                assert_eq!(endpoint, 0x81);
                assert_eq!(len, 2);
            },
            _ => panic!("no read"),
        }
    }
}

#[test]
fn generation_1_wraps_commands_and_reads_the_status_wrapper() {
    let mut link = Link::new(0x0483, 0x3744);
    let step = link.current_mode();
    let frame = match step {
        Step::Transfer(Transfer::Write { data, .. }) => data,
        _ => panic!("no write"),
    };
    assert_eq!(
        frame,
        vec![0x55, 0x53, 0x42, 0x43, 0, 0, 0, 0, 2, 0, 0, 0, 0x80, 0, 0x0A, 0xF5]
    );
    assert!(matches!(
        link.resume(Response::Written(16)),
        Step::Transfer(Transfer::Read { endpoint: 0x81, len: 2 })
    ));
    assert!(matches!(
        link.resume(Response::Received(vec![1, 0])),
        Step::Transfer(Transfer::Read { endpoint: 0x81, len: 13 })
    ));
    assert!(matches!(
        link.resume(Response::Received(vec![0; 13])),
        Step::Finished(Ok(Reply::Mode(STLinkMode::Mass)))
    ));
    let next = match link.current_mode() {
        Step::Transfer(Transfer::Write { data, .. }) => data,
        _ => panic!("no write"),
    };
    assert_eq!(&next[4..8], &[1, 0, 0, 0]);
}

#[test]
fn the_wrapper_of_a_send_names_the_other_direction() {
    let mut link = Link::new(0x0483, 0x3744);
    link.cmd_setup(0x0102_0304, Direction::Out);
    assert_eq!(link.command_len(), 15);
    link.push_command(0xF2);
    assert_eq!(link.command_len(), 16);
    let frame = match link.send(16, 0, false) {
        Step::Transfer(Transfer::Write { data, .. }) => data,
        _ => panic!("no write"),
    };
    assert_eq!(
        frame,
        vec![0x55, 0x53, 0x42, 0x43, 0, 0, 0, 0, 4, 3, 2, 1, 0x81, 0, 0x0A, 0xF2]
    );
    assert!(matches!(link.resume(Response::Written(16)), Step::Finished(Ok(Reply::Count(0)))));
}

#[test]
fn the_status_wrapper_is_read_even_after_a_failure() {
    let mut link = Link::new(0x0483, 0x3744);
    let _ = link.current_mode();
    assert!(matches!(
        link.resume(Response::Failed),
        Step::Transfer(Transfer::Read { endpoint: 0x81, len: 13 })
    ));
    assert!(matches!(
        link.resume(Response::Received(vec![0; 13])),
        Step::Finished(Err(LinkError::TransportFailure))
    ));
    let next = match link.current_mode() {
        Step::Transfer(Transfer::Write { data, .. }) => data,
        _ => panic!("no write"),
    };
    assert_eq!(&next[4..8], &[1, 0, 0, 0]);
}

#[test]
fn a_short_status_wrapper_is_a_protocol_mismatch() {
    let mut link = Link::new(0x0483, 0x3744);
    let _ = link.current_mode();
    let _ = link.resume(Response::Written(16));
    let _ = link.resume(Response::Received(vec![2, 0]));
    assert!(matches!(
        link.resume(Response::Received(vec![0; 12])),
        Step::Finished(Err(LinkError::ProtocolMismatch))
    ));
}

#[test]
fn terminate_reads_the_status_wrapper_on_generation_1_only() {
    let mut v1 = Link::new(0x0483, 0x3744);
    assert!(matches!(v1.terminate(), Step::Transfer(Transfer::Read { endpoint: 0x81, len: 13 })));
    assert!(matches!(v1.resume(Response::Received(vec![0; 13])), Step::Finished(Ok(Reply::Done))));
    assert!(matches!(v1.terminate(), Step::Transfer(_)));
    assert!(matches!(v1.resume(Response::Failed), Step::Finished(Err(LinkError::TransportFailure))));
    let mut v2 = Link::new(0x0483, 0x3748);
    assert!(matches!(v2.terminate(), Step::Finished(Ok(Reply::Done))));
}

#[test]
fn a_short_command_write_is_a_transport_failure() {
    let mut link = Link::new(0x0483, 0x3748);
    let _ = link.status();
    assert!(matches!(
        link.resume(Response::Written(1)),
        Step::Finished(Err(LinkError::TransportFailure))
    ));
    assert!(link.is_idle());
}

#[test]
fn a_short_reply_is_a_protocol_mismatch() {
    let mut link = Link::new(0x0483, 0x3748);
    let _ = link.read_debug_reg(0xE000_EDF0);
    let _ = link.resume(Response::Written(6));
    assert!(matches!(
        link.resume(Response::Received(vec![0x80, 0, 0, 0])),
        Step::Finished(Err(LinkError::ProtocolMismatch))
    ));
}

#[test]
fn a_reply_longer_than_asked_for_is_a_protocol_mismatch() {
    let mut link = Link::new(0x0483, 0x3748);
    let _ = link.current_mode();
    let _ = link.resume(Response::Written(1));
    assert!(matches!(
        link.resume(Response::Received(vec![0; 3])),
        Step::Finished(Err(LinkError::ProtocolMismatch))
    ));
}

#[test]
fn a_failed_read_is_a_transport_failure() {
    let mut link = Link::new(0x0483, 0x3748);
    let _ = link.current_mode();
    let _ = link.resume(Response::Written(1));
    assert!(matches!(link.resume(Response::Failed), Step::Finished(Err(LinkError::TransportFailure))));
}

#[test]
fn a_response_that_nothing_asked_for_is_a_protocol_mismatch() {
    let mut link = Link::new(0x0483, 0x3748);
    assert!(matches!(
        link.resume(Response::Written(1)),
        Step::Finished(Err(LinkError::ProtocolMismatch))
    ));
}

#[test]
fn one_byte_is_read_as_two() {
    let mut probe = fixture_v2();
    let mut link = versioned(0x3748, &mut probe);
    let step = link.read_mem8(0x0800_0002, 1);
    let result = drive(&mut link, step, &mut probe);
    assert_eq!(probe.reads[0], 2);
    match result {
        Ok(Reply::Bytes(bytes)) => assert_eq!(bytes, vec![0xA2]),
        other => panic!("{:?}", other),
    }
}

#[test]
fn recv_and_send_move_the_buffers() {
    let mut link = Link::new(0x0483, 0x3748);
    link.cmd_setup(4, Direction::In);
    link.push_command(0xF2);
    link.push_command(0x01);
    let step = link.recv(2, 4, true);
    match step {
        Step::Transfer(Transfer::Write { endpoint: 0x02, data }) => assert_eq!(data, vec![0xF2, 0x01]),
        _ => panic!("no write"),
    }
    assert!(matches!(link.resume(Response::Written(2)), Step::Transfer(Transfer::Read { len: 4, .. })));
    assert!(matches!(
        link.resume(Response::Received(vec![9, 8, 7, 6])),
        Step::Finished(Ok(Reply::Count(4)))
    ));
    assert_eq!(link.dump_data(5), vec![9, 8, 7, 6, 0]);
    let step = link.send(2, 3, true);
    assert!(matches!(step, Step::Transfer(Transfer::Write { .. })));
    match link.resume(Response::Written(2)) {
        Step::Transfer(Transfer::Write { endpoint: 0x02, data }) => assert_eq!(data, vec![9, 8, 7]),
        _ => panic!("no payload"),
    }
    assert!(matches!(link.resume(Response::Written(3)), Step::Finished(Ok(Reply::Count(3)))));
}

#[test]
fn a_short_payload_write_is_a_transport_failure() {
    let mut link = Link::new(0x0483, 0x3748);
    let _ = link.send(0, 3, true);
    let _ = link.resume(Response::Written(0));
    assert!(matches!(
        link.resume(Response::Written(2)),
        Step::Finished(Err(LinkError::TransportFailure))
    ));
}

#[test]
fn command_puts_bytes_in_the_command_and_words_in_the_data_buffer() {
    let mut link = Link::new(0x0483, 0x3748);
    let step = link.command(
        2,
        Direction::In,
        vec![Cmd::Int8(0xF2), Cmd::Int8(0x43), Cmd::Int16(0x0102), Cmd::Int32(0x0A0B_0C0D)],
    );
    match step {
        Step::Transfer(Transfer::Write { data, .. }) => {
            assert_eq!(data, vec![0xF2, 0x43, 0, 0, 0, 0, 0, 0])
        },
        _ => panic!("no write"),
    }
    assert_eq!(link.command_len(), 8);
    assert_eq!(link.dump_data(9), vec![0, 0, 0x02, 0x01, 0x0D, 0x0C, 0x0B, 0x0A, 0]);
}

#[test]
fn a_command_may_fill_the_command_buffer() {
    let mut link = Link::new(0x0483, 0x3748);
    let tokens: Vec<Cmd> = (0..31).map(|i| Cmd::Int8(i as u8)).collect();
    match link.command(0, Direction::Out, tokens) {
        Step::Transfer(Transfer::Write { data, .. }) => {
            assert_eq!(data, (0..31).map(|i| i as u8).collect::<Vec<u8>>())
        },
        _ => panic!("no write"),
    }
    assert_eq!(link.command_len(), 31);
    assert!(matches!(link.resume(Response::Written(31)), Step::Finished(Ok(Reply::Count(0)))));
    let mut v1 = Link::new(0x0483, 0x3744);
    let tokens: Vec<Cmd> = (0..16).map(|i| Cmd::Int8(i as u8)).collect();
    assert!(matches!(v1.command(0, Direction::In, tokens), Step::Transfer(_)));
    assert_eq!(v1.command_len(), 31);
}

#[test]
fn version_of_a_v2_probe() {
    let mut probe = fixture_v2();
    probe.version_reply = version_reply(2, 14, 4, 0x0483, 0x3748);
    let mut link = Link::new(0x0483, 0x3748);
    let step = link.version();
    match &step {
        Step::Transfer(Transfer::Write { data, .. }) => assert_eq!(data, &vec![0xF1]),
        _ => panic!("no write"),
    }
    let result = drive(&mut link, step, &mut probe);
    assert!(matches!(result, Ok(Reply::Identity { vid: 0x0483, pid: 0x3748 })));
    assert_eq!(probe.reads, vec![6]);
    assert_eq!(link.max_packet(), 64);
    assert_eq!(
        link.usb_version(),
        STLinkUSBVersion { stlink: 2, jtag: 14, swim: 4, jtag_api: 2, flags: 0x01 }
    );
}

#[test]
fn version_of_a_v3_probe_asks_for_the_extended_record() {
    let mut probe = fixture_v2();
    probe.version_reply = version_reply(3, 0, 0, 0x0483, 0x374E);
    probe.extended_reply = vec![3, 7, 5, 2, 1, 0, 0, 0, 0x83, 0x04, 0x4E, 0x37];
    let mut link = Link::new(0x0483, 0x374E);
    let step = link.version();
    let result = drive(&mut link, step, &mut probe);
    assert!(matches!(result, Ok(Reply::Identity { vid: 0x0483, pid: 0x374E })));
    assert_eq!(link.max_packet(), 512);
    assert_eq!(probe.commands, vec![vec![0xF1], vec![0xFB]]);
    assert_eq!(probe.reads, vec![6, 12]);
    assert_eq!(
        link.usb_version(),
        STLinkUSBVersion { stlink: 3, jtag: 5, swim: 7, jtag_api: 3, flags: 0x01 | 0x10 | 0x08 }
    );
}

#[test]
fn version_keeps_the_fields_of_a_v2_1_probe() {
    let mut probe = fixture_v2();
    probe.version_reply = version_reply(2, 28, 7, 0x0483, 0x374B);
    let link = versioned(0x374B, &mut probe);
    assert_eq!(link.usb_version().jtag, 28);
    assert_eq!(link.usb_version().swim, 7);
}

#[test]
fn a_failed_handshake_leaves_the_version_record() {
    let mut probe = fixture_v2();
    probe.fail_versions = 1;
    let mut link = Link::new(0x0483, 0x3748);
    let step = link.version();
    assert!(matches!(drive(&mut link, step, &mut probe), Err(LinkError::TransportFailure)));
    assert_eq!(link.usb_version(), STLinkUSBVersion { stlink: 2, jtag: 0, swim: 0, jtag_api: 1, flags: 0 });
}

#[test]
fn read_mem_unaligned_is_cut_into_bytes_and_words() {
    let mut probe = fixture_v2();
    let mut link = versioned(0x3748, &mut probe);
    let step = link.read_mem(0x0800_0001, 7);
    let result = drive(&mut link, step, &mut probe);
    match result {
        Ok(Reply::Bytes(bytes)) => assert_eq!(bytes, vec![0xA1, 0xA2, 0xA3, 0xA4, 0xA5, 0xA6, 0xA7]),
        other => panic!("{:?}", other),
    }
    let reads: Vec<Vec<u8>> =
        probe.commands.iter().filter(|c| c[1] == 0x0C || c[1] == 0x07).cloned().collect();
    assert_eq!(
        reads,
        vec![
            vec![0xF2, 0x0C, 0x01, 0x00, 0x00, 0x08, 3, 0],
            vec![0xF2, 0x07, 0x04, 0x00, 0x00, 0x08, 4, 0],
        ]
    );
    assert!(link.is_idle());
}

#[test]
fn read_mem_polls_the_status_after_each_access() {
    let mut probe = fixture_v2();
    let mut link = versioned(0x3748, &mut probe);
    let step = link.read_mem(0x0800_0001, 7);
    let _ = drive(&mut link, step, &mut probe);
    let codes: Vec<u8> = probe.commands.iter().map(|c| c[1]).collect();
    assert_eq!(codes, vec![0x0C, 0x3E, 0x07, 0x3E]);
    assert_eq!(probe.reads, vec![3, 12, 4, 12]);
}

#[test]
fn read_mem_with_the_first_command_set_does_not_poll() {
    let mut probe = fixture_v2();
    let mut link = Link::new(0x0483, 0x3748);
    let step = link.read_mem(0x0800_0000, 6);
    let result = drive(&mut link, step, &mut probe);
    match result {
        Ok(Reply::Bytes(bytes)) => assert_eq!(bytes, vec![0xA0, 0xA1, 0xA2, 0xA3, 0xA4, 0xA5]),
        other => panic!("{:?}", other),
    }
    let codes: Vec<u8> = probe.commands.iter().map(|c| c[1]).collect();
    assert_eq!(codes, vec![0x07, 0x0C]);
}

#[test]
fn read_mem_with_the_short_status_command() {
    let mut probe = fixture_v2();
    probe.version_reply = version_reply(2, 14, 0, 0x0483, 0x3748);
    let mut link = versioned(0x3748, &mut probe);
    let step = link.read_mem(0x0800_0000, 4);
    let _ = drive(&mut link, step, &mut probe);
    let codes: Vec<u8> = probe.commands.iter().map(|c| c[1]).collect();
    assert_eq!(codes, vec![0x07, 0x3B]);
    assert_eq!(probe.reads, vec![4, 2]);
}

#[test]
fn read_mem_of_nothing_asks_nothing() {
    let mut link = Link::new(0x0483, 0x3748);
    match link.read_mem(0x0800_0003, 0) {
        Step::Finished(Ok(Reply::Bytes(bytes))) => assert!(bytes.is_empty()),
        _ => panic!("not finished"),
    }
}

#[test]
fn read_mem_shorter_than_the_way_to_the_boundary() {
    let mut probe = fixture_v2();
    let mut link = Link::new(0x0483, 0x3748);
    let step = link.read_mem(0x0800_0001, 2);
    let result = drive(&mut link, step, &mut probe);
    match result {
        Ok(Reply::Bytes(bytes)) => assert_eq!(bytes, vec![0xA1, 0xA2]),
        other => panic!("{:?}", other),
    }
    assert_eq!(probe.commands, vec![vec![0xF2, 0x0C, 0x01, 0x00, 0x00, 0x08, 2, 0]]);
}

#[test]
fn read_mem_goes_in_bursts_of_the_data_buffer() {
    let mut probe = fixture_v2();
    probe.mem = (0..9000u32).map(|i| (i % 251) as u8).collect();
    let mut link = Link::new(0x0483, 0x3748);
    let step = link.read_mem(0x0800_0000, 8198);
    let result = drive(&mut link, step, &mut probe);
    match result {
        Ok(Reply::Bytes(bytes)) => assert_eq!(bytes, probe.mem[..8198].to_vec()),
        other => panic!("{:?}", other),
    }
    assert_eq!(
        probe.commands,
        vec![
            vec![0xF2, 0x07, 0x00, 0x00, 0x00, 0x08, 0x00, 0x10],
            vec![0xF2, 0x07, 0x00, 0x10, 0x00, 0x08, 0x00, 0x10],
            vec![0xF2, 0x07, 0x00, 0x20, 0x00, 0x08, 0x04, 0x00],
            vec![0xF2, 0x0C, 0x04, 0x20, 0x00, 0x08, 0x02, 0x00],
        ]
    );
}

#[test]
fn read_mem_up_to_the_end_of_the_address_space() {
    let mut probe = fixture_v2();
    probe.mem_base = 0xFFFF_FFF8;
    let mut link = Link::new(0x0483, 0x3748);
    let step = link.read_mem(0xFFFF_FFFA, 6);
    let result = drive(&mut link, step, &mut probe);
    match result {
        Ok(Reply::Bytes(bytes)) => assert_eq!(bytes, vec![0xA2, 0xA3, 0xA4, 0xA5, 0xA6, 0xA7]),
        other => panic!("{:?}", other),
    }
}

#[test]
fn a_failed_access_status_ends_the_read() {
    let mut probe = fixture_v2();
    let mut link = versioned(0x3748, &mut probe);
    probe.status_byte = 0x81;
    let step = link.read_mem(0x0800_0000, 8);
    assert!(matches!(drive(&mut link, step, &mut probe), Err(LinkError::AccessFailed)));
    assert!(link.is_idle());
}

#[test]
fn read_mem2_wants_a_word_boundary() {
    let mut probe = fixture_v2();
    let mut link = Link::new(0x0483, 0x3748);
    assert!(matches!(link.read_mem2(0x0800_0002, 4), Step::Finished(Err(LinkError::AlignmentError))));
    let step = link.read_mem2(0x0800_0000, 6);
    match drive(&mut link, step, &mut probe) {
        Ok(Reply::Bytes(bytes)) => assert_eq!(bytes, vec![0xA0, 0xA1, 0xA2, 0xA3, 0xA4, 0xA5]),
        other => panic!("{:?}", other),
    }
}

#[test]
fn read_mem8_is_capped_at_the_largest_packet() {
    let mut probe = fixture_v2();
    let mut link = Link::new(0x0483, 0x3748);
    assert!(matches!(link.read_mem8(0x0800_0000, 65), Step::Finished(Err(LinkError::TooLong))));
    let step = link.read_mem8(0x0800_0001, 5);
    match drive(&mut link, step, &mut probe) {
        Ok(Reply::Bytes(bytes)) => assert_eq!(bytes, vec![0xA1, 0xA2, 0xA3, 0xA4, 0xA5]),
        other => panic!("{:?}", other),
    }
    assert_eq!(probe.commands, vec![vec![0xF2, 0x0C, 0x01, 0x00, 0x00, 0x08, 5, 0]]);
}

#[test]
fn read_mem8_carries_more_on_generation_3() {
    let mut probe = fixture_v2();
    let mut link = versioned_v3(&mut probe);
    assert!(matches!(link.read_mem8(0x0800_0000, 513), Step::Finished(Err(LinkError::TooLong))));
    assert!(matches!(link.read_mem8(0x0800_0000, 512), Step::Transfer(_)));
}

#[test]
fn the_generation_of_the_reply_sets_the_largest_packet() {
    let mut probe = fixture_v2();
    probe.version_reply = version_reply(3, 4, 1, 0x0483, 0x3748);
    let link = versioned(0x3748, &mut probe);
    assert_eq!(link.usb_version().stlink, 3);
    assert_eq!(link.max_packet(), 512);
}

#[test]
fn read_mem_goes_in_smaller_bursts_after_an_opening_for_another_core() {
    let mut probe = fixture_v2();
    probe.cpuid = 0x410C_C200;
    let mut link = opened_v2(&mut probe);
    probe.mem = (0..3000u32).map(|i| (i % 199) as u8).collect();
    let step = link.read_mem(0x0800_0000, 2050);
    match drive(&mut link, step, &mut probe) {
        Ok(Reply::Bytes(bytes)) => assert_eq!(bytes, probe.mem[..2050].to_vec()),
        other => panic!("{:?}", other),
    }
    let reads: Vec<Vec<u8>> =
        probe.commands.iter().filter(|c| c[1] == 0x0C || c[1] == 0x07).cloned().collect();
    assert_eq!(
        reads,
        vec![
            vec![0xF2, 0x07, 0x00, 0x00, 0x00, 0x08, 0x00, 0x04],
            vec![0xF2, 0x07, 0x00, 0x04, 0x00, 0x08, 0x00, 0x04],
            vec![0xF2, 0x0C, 0x00, 0x08, 0x00, 0x08, 0x02, 0x00],
        ]
    );
}

#[test]
fn read_mem32_wants_words() {
    let mut probe = fixture_v2();
    let mut link = Link::new(0x0483, 0x3748);
    assert!(matches!(link.read_mem32(0x0800_0001, 4), Step::Finished(Err(LinkError::AlignmentError))));
    assert!(matches!(link.read_mem32(0x0800_0000, 6), Step::Finished(Err(LinkError::AlignmentError))));
    assert!(matches!(link.read_mem32(0x0800_0000, 4100), Step::Finished(Err(LinkError::TooLong))));
    let step = link.read_mem32(0x0800_0004, 4);
    match drive(&mut link, step, &mut probe) {
        Ok(Reply::Bytes(bytes)) => assert_eq!(bytes, vec![0xA4, 0xA5, 0xA6, 0xA7]),
        other => panic!("{:?}", other),
    }
}

#[test]
fn write_mem_is_cut_like_a_read_and_sends_the_bytes() {
    let mut probe = fixture_v2();
    let mut link = versioned(0x3748, &mut probe);
    let data: Vec<u8> = (1..=10).collect();
    let step = link.write_mem(0x2000_0002, &data);
    let result = drive(&mut link, step, &mut probe);
    assert!(matches!(result, Ok(Reply::Done)));
    let writes: Vec<Vec<u8>> =
        probe.commands.iter().filter(|c| c[1] == 0x0D || c[1] == 0x08).cloned().collect();
    assert_eq!(
        writes,
        vec![
            vec![0xF2, 0x0D, 0x02, 0x00, 0x00, 0x20, 2, 0],
            vec![0xF2, 0x08, 0x04, 0x00, 0x00, 0x20, 8, 0],
        ]
    );
    assert_eq!(probe.payloads, vec![vec![1, 2], vec![3, 4, 5, 6, 7, 8, 9, 10]]);
    let codes: Vec<u8> = probe.commands.iter().map(|c| c[1]).collect();
    assert_eq!(codes, vec![0x0D, 0x3E, 0x08, 0x3E]);
}

#[test]
fn write_mem8_and_write_mem32_check_their_arguments() {
    let mut probe = fixture_v2();
    let mut link = Link::new(0x0483, 0x3748);
    let long = vec![0u8; 65];
    assert!(matches!(link.write_mem8(0x2000_0000, &long), Step::Finished(Err(LinkError::TooLong))));
    assert!(matches!(
        link.write_mem32(0x2000_0001, &[1, 2, 3, 4]),
        Step::Finished(Err(LinkError::AlignmentError))
    ));
    assert!(matches!(
        link.write_mem32(0x2000_0000, &[1, 2, 3]),
        Step::Finished(Err(LinkError::AlignmentError))
    ));
    let big = vec![0u8; 4100];
    assert!(matches!(link.write_mem32(0x2000_0000, &big), Step::Finished(Err(LinkError::TooLong))));
    let step = link.write_mem8(0x2000_0001, &[7, 8, 9]);
    assert!(matches!(drive(&mut link, step, &mut probe), Ok(Reply::Done)));
    let step = link.write_mem32(0x2000_0004, &[1, 2, 3, 4]);
    assert!(matches!(drive(&mut link, step, &mut probe), Ok(Reply::Done)));
    assert_eq!(
        probe.commands,
        vec![
            vec![0xF2, 0x0D, 0x01, 0x00, 0x00, 0x20, 3, 0],
            vec![0xF2, 0x08, 0x04, 0x00, 0x00, 0x20, 4, 0],
        ]
    );
    assert_eq!(probe.payloads, vec![vec![7, 8, 9], vec![1, 2, 3, 4]]);
}

#[test]
fn unlock_flash_writes_both_keys_when_locked() {
    let mut probe = fixture_v2();
    probe.cr_values = vec![0x8000_0000, 0x0000_0000];
    let mut link = versioned(0x3748, &mut probe);
    let step = link.unlock_flash();
    assert!(matches!(drive(&mut link, step, &mut probe), Ok(Reply::Done)));
    assert_eq!(
        probe.commands,
        vec![
            vec![0xF2, 0x36, 0x10, 0x3C, 0x02, 0x40],
            vec![0xF2, 0x35, 0x04, 0x3C, 0x02, 0x40, 0x23, 0x01, 0x67, 0x45],
            vec![0xF2, 0x35, 0x04, 0x3C, 0x02, 0x40, 0xAB, 0x89, 0xEF, 0xCD],
            vec![0xF2, 0x36, 0x10, 0x3C, 0x02, 0x40],
        ]
    );
}

#[test]
fn unlock_flash_fails_when_the_lock_stays() {
    let mut probe = fixture_v2();
    probe.cr_values = vec![0x8000_0000];
    let mut link = versioned(0x3748, &mut probe);
    let step = link.unlock_flash();
    assert!(matches!(drive(&mut link, step, &mut probe), Err(LinkError::FlashStillLocked)));
    assert_eq!(probe.commands.len(), 4);
}

#[test]
fn unlock_flash_twice_leaves_an_unlocked_flash_alone() {
    let mut probe = fixture_v2();
    probe.cr_values = vec![0x8000_0000, 0x0000_0000];
    let mut link = versioned(0x3748, &mut probe);
    let step = link.unlock_flash();
    assert!(matches!(drive(&mut link, step, &mut probe), Ok(Reply::Done)));
    probe.commands.clear();
    let step = link.unlock_flash();
    assert!(matches!(drive(&mut link, step, &mut probe), Ok(Reply::Done)));
    assert_eq!(probe.commands, vec![vec![0xF2, 0x36, 0x10, 0x3C, 0x02, 0x40]]);
}

#[test]
fn unlock_flash_is_not_for_generation_1() {
    let mut link = Link::new(0x0483, 0x3744);
    assert!(matches!(link.unlock_flash(), Step::Finished(Err(LinkError::UnsupportedFeature))));
}

#[test]
fn debug_registers_are_read_and_written() {
    let mut probe = fixture_v2();
    probe.idcode = 0xDEAD_BEEF;
    let mut link = versioned(0x3748, &mut probe);
    let step = link.read_debug_reg(0xE004_2000);
    assert!(matches!(drive(&mut link, step, &mut probe), Ok(Reply::Word(0xDEAD_BEEF))));
    let step = link.write_debug_reg(0xE000_EDF0, 0xA05F_0003);
    assert!(matches!(drive(&mut link, step, &mut probe), Ok(Reply::Done)));
    assert_eq!(
        probe.commands,
        vec![
            vec![0xF2, 0x36, 0x00, 0x20, 0x04, 0xE0],
            vec![0xF2, 0x35, 0xF0, 0xED, 0x00, 0xE0, 0x03, 0x00, 0x5F, 0xA0],
        ]
    );
    assert_eq!(probe.reads, vec![8, 2]);
    let mut v1 = Link::new(0x0483, 0x3744);
    assert!(matches!(v1.read_debug_reg(0), Step::Finished(Err(LinkError::UnsupportedFeature))));
    match v1.write_debug_reg(1, 2) {
        Step::Transfer(Transfer::Write { data, .. }) => assert_eq!(data[15..17], [0xF2, 0x0F]),
        _ => panic!("no write"),
    }
}

#[test]
fn core_registers_are_read_one_and_all() {
    let mut probe = fixture_v2();
    let mut link = versioned(0x3748, &mut probe);
    let step = link.read_reg(15);
    assert!(matches!(drive(&mut link, step, &mut probe), Ok(Reply::Word(0x1234_5678))));
    assert_eq!(probe.commands[0], vec![0xF2, 0x33, 15]);
    let step = link.read_core_regs();
    match drive(&mut link, step, &mut probe) {
        Ok(Reply::Registers(regs)) => {
            assert_eq!(regs.get(0), 0x0302_0100);
            assert_eq!(regs.get(15), 0x3F3E_3D3C);
            assert_eq!(regs.get(16), 0x4342_4140);
            assert_eq!(regs.get(17), 0x4746_4544);
            assert_eq!(regs.get(18), 0x4B4A_4948);
            assert_eq!(regs.get(19), 0x4F4E_4D4C);
            assert_eq!(regs.get(20), 0x5352_5150);
            assert_eq!(regs.get(21), 0);
        },
        other => panic!("{:?}", other),
    }
    assert_eq!(probe.commands[1], vec![0xF2, 0x3A]);
    assert_eq!(probe.reads, vec![8, 88]);
}

#[test]
fn core_registers_of_generation_1() {
    let mut probe = fixture_v2();
    probe.wrapped = true;
    let mut link = Link::new(0x0483, 0x3744);
    let step = link.read_reg(3);
    assert!(matches!(drive(&mut link, step, &mut probe), Ok(Reply::Word(0x1234_5678))));
    let step = link.read_core_regs();
    assert!(matches!(drive(&mut link, step, &mut probe), Ok(Reply::Registers(_))));
    assert_eq!(probe.commands[0][15..], [0xF2, 0x05, 3]);
    assert_eq!(probe.commands[1][15..], [0xF2, 0x04]);
    assert_eq!(probe.commands[1][8..12], [84, 0, 0, 0]);
    assert_eq!(probe.reads, vec![4, 13, 84, 13]);
}

#[test]
fn run_halt_and_step_write_the_control_register() {
    let mut probe = fixture_v2();
    let mut link = versioned(0x3748, &mut probe);
    let step = link.run();
    assert!(matches!(drive(&mut link, step, &mut probe), Ok(Reply::Done)));
    let step = link.halt();
    assert!(matches!(drive(&mut link, step, &mut probe), Ok(Reply::Done)));
    let step = link.step();
    assert!(matches!(drive(&mut link, step, &mut probe), Ok(Reply::Done)));
    let values: Vec<Vec<u8>> = probe.commands.iter().map(|c| c[6..10].to_vec()).collect();
    assert_eq!(
        values,
        vec![
            vec![0x01, 0x00, 0x5F, 0xA0],
            vec![0x03, 0x00, 0x5F, 0xA0],
            vec![0x0B, 0x00, 0x5F, 0xA0],
            vec![0x0D, 0x00, 0x5F, 0xA0],
            vec![0x03, 0x00, 0x5F, 0xA0],
        ]
    );
    for c in &probe.commands {
        assert_eq!(c[..6], [0xF2, 0x35, 0xF0, 0xED, 0x00, 0xE0]);
    }
}

#[test]
fn run_halt_and_step_of_the_first_command_set() {
    let mut probe = fixture_v2();
    let mut link = Link::new(0x0483, 0x3748);
    for (i, code) in [0x09u8, 0x02, 0x0A].iter().enumerate() {
        let step = match i {
            0 => link.run(),
            1 => link.halt(),
            _ => link.step(),
        };
        assert!(matches!(drive(&mut link, step, &mut probe), Ok(Reply::Done)));
        assert_eq!(probe.commands[i], vec![0xF2, *code]);
    }
}

#[test]
fn a_step_ends_with_the_first_write_that_fails() {
    let mut probe = fixture_v2();
    let mut link = versioned(0x3748, &mut probe);
    let _ = link.step();
    let _ = link.resume(Response::Written(10));
    assert!(matches!(link.resume(Response::Received(vec![0x80, 0])), Step::Transfer(_)));
    assert!(matches!(link.resume(Response::Failed), Step::Finished(Err(LinkError::TransportFailure))));
}

#[test]
fn resets_send_their_commands() {
    let mut probe = fixture_v2();
    let mut link = versioned(0x3748, &mut probe);
    let step = link.usb_reset();
    assert!(matches!(drive(&mut link, step, &mut probe), Ok(Reply::Done)));
    let step = link.jtag_reset(0x0102);
    assert!(matches!(drive(&mut link, step, &mut probe), Ok(Reply::Done)));
    let step = link.assert_srst(STLinkMode::Debug(DebugMode::SWD), 1);
    assert!(matches!(drive(&mut link, step, &mut probe), Ok(Reply::Done)));
    let step = link.assert_srst(STLinkMode::Debug(DebugMode::SWIM), 0);
    assert!(matches!(drive(&mut link, step, &mut probe), Ok(Reply::Done)));
    let step = link.swim_assert_reset(5);
    assert!(matches!(drive(&mut link, step, &mut probe), Ok(Reply::Done)));
    assert_eq!(
        probe.commands,
        vec![
            vec![0xF2, 0x32],
            vec![0xF2, 0x3C, 0x02],
            vec![0xF2, 0x3C, 0x01],
            vec![0xF4, 0x07],
            vec![0xF4, 0x08],
        ]
    );
    let mut v1 = Link::new(0x0483, 0x3744);
    assert!(matches!(
        v1.assert_srst(STLinkMode::Debug(DebugMode::JTAG), 0),
        Step::Finished(Err(LinkError::UnsupportedFeature))
    ));
    match v1.usb_reset() {
        Step::Transfer(Transfer::Write { data, .. }) => assert_eq!(data[15..], [0xF2, 0x03]),
        _ => panic!("no write"),
    }
}

#[test]
fn modes_are_entered_and_left() {
    let mut probe = fixture_v2();
    let mut link = versioned(0x3748, &mut probe);
    let step = link.enter_mode(DebugMode::SWD);
    assert!(matches!(drive(&mut link, step, &mut probe), Ok(Reply::Done)));
    let step = link.enter_mode(DebugMode::JTAG);
    assert!(matches!(drive(&mut link, step, &mut probe), Ok(Reply::Done)));
    let step = link.enter_mode(DebugMode::SWIM);
    assert!(matches!(drive(&mut link, step, &mut probe), Ok(Reply::Done)));
    assert!(matches!(
        link.enter_mode(DebugMode::Unknown),
        Step::Finished(Err(LinkError::UnsupportedFeature))
    ));
    let step = link.leave_mode(STLinkMode::Debug(DebugMode::SWD));
    assert!(matches!(drive(&mut link, step, &mut probe), Ok(Reply::Done)));
    let step = link.leave_mode(STLinkMode::Debug(DebugMode::SWIM));
    assert!(matches!(drive(&mut link, step, &mut probe), Err(LinkError::ProtocolMismatch)));
    let step = link.leave_mode(STLinkMode::DFU);
    assert!(matches!(drive(&mut link, step, &mut probe), Ok(Reply::Done)));
    let step = link.exit_dfu_mode();
    assert!(matches!(drive(&mut link, step, &mut probe), Ok(Reply::Done)));
    let step = link.exit_debug_mode();
    assert!(matches!(drive(&mut link, step, &mut probe), Ok(Reply::Done)));
    let step = link.enter_swd_mode();
    assert!(matches!(drive(&mut link, step, &mut probe), Ok(Reply::Done)));
    assert_eq!(
        probe.commands,
        vec![
            vec![0xF2, 0x30, 0xA3],
            vec![0xF2, 0x30, 0xA4],
            vec![0xF4, 0x00],
            vec![0xF2, 0x21],
            vec![0xF4, 0x01],
            vec![0xF3, 0x07],
            vec![0xF3, 0x07],
            vec![0xF2, 0x21],
            vec![0xF2, 0x20, 0xA3],
        ]
    );
    assert_eq!(probe.reads, vec![2, 2, 2, 2, 2]);
}

#[test]
fn the_first_command_set_enters_without_an_acknowledgement() {
    let mut probe = fixture_v2();
    let mut link = Link::new(0x0483, 0x3748);
    let step = link.enter_mode(DebugMode::JTAG);
    assert!(matches!(drive(&mut link, step, &mut probe), Ok(Reply::Done)));
    assert_eq!(probe.commands, vec![vec![0xF2, 0x20, 0xA4]]);
    assert!(probe.reads.is_empty());
}

#[test]
fn the_probe_tells_its_mode_voltage_core_and_state() {
    let mut probe = fixture_v2();
    let mut link = versioned(0x3748, &mut probe);
    for (byte, mode) in [
        (0u8, STLinkMode::DFU),
        (1, STLinkMode::Mass),
        (2, STLinkMode::Debug(DebugMode::Unknown)),
        (3, STLinkMode::Debug(DebugMode::SWIM)),
        (4, STLinkMode::Unknown),
        (0xFF, STLinkMode::Unknown),
    ] {
        probe.mode_bytes = vec![byte];
        let step = link.current_mode();
        match drive(&mut link, step, &mut probe) {
            Ok(Reply::Mode(m)) => assert_eq!(m, mode),
            other => panic!("{:?}", other),
        }
    }
    probe.commands.clear();
    probe.reads.clear();
    let step = link.voltage();
    match drive(&mut link, step, &mut probe) {
        Ok(Reply::Voltage(v)) => {
            assert_eq!(v, TargetVoltage { reference: 100, target: 125 });
            assert_eq!(v.millivolts(), 3000);
            assert!(!v.is_low());
        },
        other => panic!("{:?}", other),
    }
    let step = link.core_id();
    assert!(matches!(drive(&mut link, step, &mut probe), Ok(Reply::Word(0x2BA0_1477))));
    let step = link.status();
    assert!(matches!(drive(&mut link, step, &mut probe), Ok(Reply::Word(0x81))));
    assert_eq!(probe.commands, vec![vec![0xF7], vec![0xF2, 0x31], vec![0xF2, 0x01]]);
    assert_eq!(probe.reads, vec![8, 12, 2]);
}

#[test]
fn voltage_thresholds() {
    assert!(TargetVoltage { reference: 100, target: 62 }.is_low());
    assert!(!TargetVoltage { reference: 8, target: 5 }.is_low());
    assert!(TargetVoltage { reference: 1, target: 0 }.is_low());
    assert!(!TargetVoltage { reference: 0, target: 0 }.is_low());
    assert_eq!(TargetVoltage { reference: 0, target: 7 }.millivolts(), 0);
    assert_eq!(TargetVoltage { reference: 8, target: 5 }.millivolts(), 1500);
    assert_eq!(TargetVoltage { reference: u32::MAX, target: u32::MAX }.millivolts(), 2400);
}

#[test]
fn a_probe_that_cannot_measure_reports_zero_volts() {
    let mut link = Link::new(0x0483, 0x3748);
    match link.voltage() {
        Step::Finished(Ok(Reply::Voltage(v))) => {
            assert_eq!(v.millivolts(), 0);
            assert!(v.is_low());
        },
        _ => panic!("asked"),
    }
}

#[test]
fn the_core_id_of_the_first_command_set() {
    let mut probe = fixture_v2();
    let mut link = Link::new(0x0483, 0x3748);
    let step = link.core_id();
    assert!(matches!(drive(&mut link, step, &mut probe), Ok(Reply::Word(0x1BA0_1477))));
    assert_eq!(probe.commands, vec![vec![0xF2, 0x22]]);
    assert_eq!(probe.reads, vec![4]);
}

#[test]
fn chip_info_fills_the_memory_map() {
    let mut probe = fixture_v2();
    probe.idcode = 0x2001_6419;
    probe.flash_kib = 2048;
    let mut link = versioned(0x3748, &mut probe);
    let step = link.get_chip_info();
    assert!(matches!(drive(&mut link, step, &mut probe), Ok(Reply::Word(0x419))));
    assert_eq!(
        probe.commands,
        vec![
            vec![0xF2, 0x36, 0x00, 0x20, 0x04, 0xE0],
            vec![0xF2, 0x0C, 0x22, 0x7A, 0xFF, 0x1F, 2, 0],
            vec![0xF2, 0x3E],
        ]
    );
    let map = link.memory();
    assert_eq!(map.flash, FlashInfo { base: 0x0800_0000, size: 2048, pagesize: Some(0x4000) });
    assert_eq!(map.ram, vec![SRamInfo { base: 0x2000_0000, size: 0x40000 }]);
    assert_eq!(map.sys, SysMemInfo { base: 0x1FFF_0000, size: 0x7800 });
}

#[test]
fn chip_info_has_no_page_size_of_its_own_where_the_numbers_agree() {
    let mut probe = fixture_v2();
    probe.flash_kib = 0x4000;
    let mut link = versioned(0x3748, &mut probe);
    let step = link.get_chip_info();
    assert!(matches!(drive(&mut link, step, &mut probe), Ok(Reply::Word(0x413))));
    assert_eq!(link.memory().flash, FlashInfo { base: 0x0800_0000, size: 0x4000, pagesize: None });
}

#[test]
fn an_unknown_chip_is_an_error() {
    let mut probe = fixture_v2();
    probe.idcode = 0x1000_0123;
    let mut link = versioned(0x3748, &mut probe);
    let step = link.get_chip_info();
    assert!(matches!(drive(&mut link, step, &mut probe), Err(LinkError::UnknownChip)));
    assert!(link.memory().ram.is_empty());
    let mut v1 = Link::new(0x0483, 0x3744);
    assert!(matches!(v1.get_chip_info(), Step::Finished(Err(LinkError::UnsupportedFeature))));
}

#[test]
fn rw_status_reports_a_failed_access() {
    let mut probe = fixture_v2();
    let mut link = versioned(0x3748, &mut probe);
    let step = link.rw_status();
    assert!(matches!(drive(&mut link, step, &mut probe), Ok(Reply::Count(12))));
    probe.status_byte = 0x81;
    let step = link.rw_status();
    assert!(matches!(drive(&mut link, step, &mut probe), Err(LinkError::AccessFailed)));
    let mut first = Link::new(0x0483, 0x3748);
    assert!(matches!(first.rw_status(), Step::Finished(Ok(Reply::Count(0)))));
}

#[test]
fn speeds_of_the_second_command_set() {
    let mut probe = fixture_v2();
    let mut link = versioned(0x3748, &mut probe);
    let step = link.set_speed(DebugMode::SWD, 1000);
    assert!(matches!(drive(&mut link, step, &mut probe), Ok(Reply::Done)));
    assert_eq!(link.dump_data(2), vec![0x80, 0]);
    let step = link.speed_swd(1000);
    match &step {
        Step::Transfer(Transfer::Write { data, .. }) => assert_eq!(data, &vec![0xF2, 0x43, 0, 0]),
        _ => panic!("no write"),
    }
    assert_eq!(link.dump_data(4), vec![0, 0, 3, 0]);
    assert!(matches!(drive(&mut link, step, &mut probe), Ok(Reply::Done)));
    let step = link.set_speed(DebugMode::JTAG, 100_000);
    match &step {
        Step::Transfer(Transfer::Write { data, .. }) => assert_eq!(data, &vec![0xF2, 0x44, 0, 0]),
        _ => panic!("no write"),
    }
    assert_eq!(link.dump_data(4), vec![0, 0, 2, 0]);
    assert!(matches!(drive(&mut link, step, &mut probe), Ok(Reply::Done)));
    let step = link.set_speed(DebugMode::SWIM, 0);
    assert!(matches!(drive(&mut link, step, &mut probe), Ok(Reply::Done)));
    let step = link.speed_swim(800);
    assert!(matches!(drive(&mut link, step, &mut probe), Ok(Reply::Done)));
    assert_eq!(probe.commands[3], vec![0xF4, 0x03, 0]);
    assert_eq!(probe.commands[4], vec![0xF4, 0x03, 1]);
    assert!(matches!(
        link.set_speed(DebugMode::Unknown, 5),
        Step::Finished(Err(LinkError::UnsupportedFeature))
    ));
}

#[test]
fn speeds_are_left_alone_where_the_probe_cannot_set_them() {
    let mut link = Link::new(0x0483, 0x3748);
    assert!(matches!(link.speed_swd(1000), Step::Finished(Ok(Reply::Done))));
    assert!(matches!(link.speed_jtag(1000), Step::Finished(Ok(Reply::Done))));
    assert!(matches!(link.speed_v3(true, 1000), Step::Finished(Err(LinkError::UnsupportedFeature))));
    assert!(matches!(link.get_com_freq(true), Step::Finished(Err(LinkError::UnsupportedFeature))));
    assert!(matches!(link.set_swdclk(3), Step::Finished(Err(LinkError::UnsupportedFeature))));
}

fn versioned_v3(probe: &mut Fixture) -> Link {
    probe.version_reply = version_reply(3, 0, 0, 0x0483, 0x374E);
    probe.extended_reply = vec![3, 0, 5, 0, 0, 0, 0, 0, 0x83, 0x04, 0x4E, 0x37];
    versioned(0x374E, probe)
}

#[test]
fn speeds_of_the_third_command_set() {
    let mut probe = fixture_v2();
    let mut link = versioned_v3(&mut probe);
    let step = link.get_com_freq(false);
    match drive(&mut link, step, &mut probe) {
        Ok(Reply::Speeds(map)) => {
            assert_eq!(map.len(), 10);
            let speeds: Vec<usize> = map.iter().map(|e| e.speed).collect();
            assert_eq!(speeds, vec![24000, 8000, 3300, 1000, 0, 0, 0, 0, 0, 0]);
            let divisors: Vec<usize> = map.iter().map(|e| e.divisor).collect();
            assert_eq!(divisors, vec![0, 1, 2, 3, 4, 5, 6, 7, 8, 9]);
        },
        other => panic!("{:?}", other),
    }
    probe.commands.clear();
    let step = link.set_speed(DebugMode::JTAG, 3000);
    assert!(matches!(drive(&mut link, step, &mut probe), Ok(Reply::Done)));
    assert_eq!(probe.commands, vec![vec![0xF2, 0x62, 1], vec![0xF2, 0x61, 1, 0, 0, 0, 0, 0]]);
    let step = link.speed_v3(false, 3000);
    assert!(matches!(link.resume(match step {
        Step::Transfer(t) => probe.perform(t),
        _ => panic!("no transfer"),
    }), Step::Transfer(_)));
    let next = link.resume(Response::Received({
        let mut reply = vec![0u8; 52];
        reply[8] = 2;
        reply[12..16].copy_from_slice(&le32(4000));
        reply[16..20].copy_from_slice(&le32(2500));
        reply
    }));
    match next {
        Step::Transfer(Transfer::Write { data, .. }) => {
            assert_eq!(data, vec![0xF2, 0x61, 0, 0, 0, 0, 0, 0])
        },
        _ => panic!("no write"),
    }
    assert_eq!(link.dump_data(8), vec![0, 0, 0, 0, 0xC4, 0x09, 0, 0]);
}

#[test]
fn the_speed_table_announces_at_most_ten_speeds() {
    let mut probe = fixture_v2();
    let mut link = versioned_v3(&mut probe);
    probe.frequencies = (1..=10).rev().map(|i| i * 100).collect();
    let _ = link.get_com_freq(true);
    let _ = link.resume(Response::Written(3));
    let mut reply = vec![0u8; 52];
    reply[8] = 200;
    for i in 0..10 {
        reply[12 + 4 * i..16 + 4 * i].copy_from_slice(&le32(1000 - 100 * i as u32));
    }
    match link.resume(Response::Received(reply)) {
        Step::Finished(Ok(Reply::Speeds(map))) => {
            assert_eq!(map.len(), 10);
            assert_eq!(map[9].speed, 100);
            assert_eq!(map[9].divisor, 9);
        },
        _ => panic!("no table"),
    }
}

#[test]
fn set_swdclk_and_enter_debug_state_send_their_commands() {
    let mut probe = fixture_v2();
    let mut link = versioned_v3(&mut probe);
    match link.set_swdclk(0x0102) {
        Step::Transfer(Transfer::Write { data, .. }) => assert_eq!(data, vec![0xF2, 0x43, 0x02, 0x01]),
        _ => panic!("no write"),
    }
    let mut link = Link::new(0x0483, 0x3748);
    match link.enter_debug_state() {
        Step::Transfer(Transfer::Write { data, .. }) => {
            assert_eq!(data, vec![0xF2, 0x35, 0xF0, 0xED, 0x00, 0xE0, 0x03, 0x00, 0x5F, 0xA0])
        },
        _ => panic!("no write"),
    }
    assert!(matches!(
        link.resume(Response::Written(10)),
        Step::Transfer(Transfer::Read { endpoint: 0x81, len: 100 })
    ));
}

#[test]
fn init_mode_of_a_v2_probe_for_swd() {
    let mut probe = fixture_v2();
    let mut link = versioned(0x3748, &mut probe);
    let step = link.init_mode(STLinkMode::Debug(DebugMode::SWD), false);
    match drive(&mut link, step, &mut probe) {
        Ok(Reply::Mode(m)) => {
            assert_eq!(m, STLinkMode::Debug(DebugMode::Unknown));
            assert!(confirms(m, DebugMode::SWD));
        },
        other => panic!("{:?}", other),
    }
    assert_eq!(
        probe.commands,
        vec![
            vec![0xF5],
            vec![0xF5],
            vec![0xF7],
            vec![0xF2, 0x43, 0, 0],
            vec![0xF2, 0x30, 0xA3],
            vec![0xF5],
        ]
    );
}

#[test]
fn init_mode_leaves_dfu_mode_first() {
    let mut probe = fixture_v2();
    let mut link = versioned(0x3748, &mut probe);
    probe.mode_bytes = vec![0x00, 0x01, 0x02];
    let step = link.init_mode(STLinkMode::Debug(DebugMode::JTAG), false);
    assert!(matches!(
        drive(&mut link, step, &mut probe),
        Ok(Reply::Mode(STLinkMode::Debug(DebugMode::Unknown)))
    ));
    let heads: Vec<Vec<u8>> = probe.commands.iter().map(|c| c[..c.len().min(3)].to_vec()).collect();
    assert_eq!(
        heads,
        vec![
            vec![0xF5],
            vec![0xF3, 0x07],
            vec![0xF5],
            vec![0xF7],
            vec![0xF2, 0x44, 0],
            vec![0xF2, 0x30, 0xA4],
            vec![0xF5],
        ]
    );
}

#[test]
fn init_mode_fails_if_the_probe_stays_in_dfu_mode() {
    let mut probe = fixture_v2();
    let mut link = versioned(0x3748, &mut probe);
    probe.mode_bytes = vec![0x00];
    let step = link.init_mode(STLinkMode::Debug(DebugMode::SWD), false);
    assert!(matches!(drive(&mut link, step, &mut probe), Err(LinkError::StillInDfu)));
    assert_eq!(probe.commands.len(), 3);
}

#[test]
fn init_mode_refuses_what_the_probe_cannot_enter() {
    let mut probe = fixture_v2();
    let mut link = versioned(0x3748, &mut probe);
    for mode in [STLinkMode::Debug(DebugMode::SWIM), STLinkMode::Mass, STLinkMode::Debug(DebugMode::Unknown)] {
        probe.commands.clear();
        let step = link.init_mode(mode, false);
        assert!(matches!(drive(&mut link, step, &mut probe), Err(LinkError::UnsupportedFeature)));
        assert_eq!(probe.commands, vec![vec![0xF5], vec![0xF5], vec![0xF7]]);
    }
    let mut fresh = Link::new(0x0483, 0x3748);
    let step = fresh.init_mode(STLinkMode::Debug(DebugMode::SWD), false);
    assert!(matches!(drive(&mut fresh, step, &mut probe), Err(LinkError::UnsupportedFeature)));
}

#[test]
fn init_mode_under_reset_asserts_the_line_before_and_after() {
    let mut probe = fixture_v2();
    let mut link = versioned(0x3748, &mut probe);
    let step = link.init_mode(STLinkMode::Debug(DebugMode::SWD), true);
    assert!(matches!(drive(&mut link, step, &mut probe), Ok(Reply::Mode(_))));
    let heads: Vec<Vec<u8>> = probe.commands.iter().skip(4).cloned().collect();
    assert_eq!(
        heads,
        vec![vec![0xF2, 0x3C, 0], vec![0xF2, 0x30, 0xA3], vec![0xF2, 0x3C, 0], vec![0xF5]]
    );
}

#[test]
fn init_mode_for_swim_enters_without_setting_a_speed() {
    let mut probe = fixture_v2();
    probe.version_reply = version_reply(2, 27, 6, 0x0483, 0x3748);
    let mut link = versioned(0x3748, &mut probe);
    probe.mode_bytes = vec![0x01, 0x01, 0x03];
    let step = link.init_mode(STLinkMode::Debug(DebugMode::SWIM), true);
    match drive(&mut link, step, &mut probe) {
        Ok(Reply::Mode(m)) => assert!(confirms(m, DebugMode::SWIM)),
        other => panic!("{:?}", other),
    }
    assert_eq!(
        probe.commands,
        vec![vec![0xF5], vec![0xF5], vec![0xF7], vec![0xF4, 0x00], vec![0xF4, 0x07], vec![0xF5]]
    );
}

#[test]
fn init_mode_of_a_v3_probe_sets_the_speed_from_its_table() {
    let mut probe = fixture_v2();
    let mut link = versioned_v3(&mut probe);
    let step = link.init_mode(STLinkMode::Debug(DebugMode::JTAG), false);
    assert!(matches!(drive(&mut link, step, &mut probe), Ok(Reply::Mode(_))));
    assert_eq!(
        probe.commands,
        vec![
            vec![0xF5],
            vec![0xF5],
            vec![0xF7],
            vec![0xF2, 0x62, 1],
            vec![0xF2, 0x61, 1, 0, 0, 0, 0, 0],
            vec![0xF2, 0x30, 0xA4],
            vec![0xF5],
        ]
    );
}

#[test]
fn init_mode_goes_on_when_the_speed_cannot_be_set() {
    let mut probe = fixture_v2();
    let mut link = versioned(0x3748, &mut probe);
    let mut step = link.init_mode(STLinkMode::Debug(DebugMode::SWD), false);
    let mut sent = 0;
    let result = loop {
        match step {
            Step::Transfer(Transfer::Write { endpoint, data }) => {
                sent += 1;
                if data.len() == 4 && data[1] == 0x43 {
                    step = link.resume(Response::Failed);
                } else {
                    step = link.resume(probe.perform(Transfer::Write { endpoint, data }));
                }
            },
            Step::Transfer(t) => step = link.resume(probe.perform(t)),
            Step::Finished(r) => break r,
        }
    };
    assert!(matches!(result, Ok(Reply::Mode(_))));
    assert_eq!(sent, 6);
}

#[test]
fn init_mode_succeeds_even_if_the_last_question_fails() {
    let mut probe = fixture_v2();
    let mut link = versioned(0x3748, &mut probe);
    let mut step = link.init_mode(STLinkMode::Debug(DebugMode::SWD), false);
    let mut modes = 0;
    let result = loop {
        match step {
            Step::Transfer(Transfer::Write { endpoint, data }) => {
                if data == vec![0xF5] {
                    modes += 1;
                }
                if modes == 3 {
                    step = link.resume(Response::Failed);
                } else {
                    step = link.resume(probe.perform(Transfer::Write { endpoint, data }));
                }
            },
            Step::Transfer(t) => step = link.resume(probe.perform(t)),
            Step::Finished(r) => break r,
        }
    };
    assert!(matches!(result, Ok(Reply::Mode(STLinkMode::Unknown))));
}

#[test]
fn a_reported_mode_bears_out_the_mode_asked_for() {
    assert!(confirms(STLinkMode::Debug(DebugMode::Unknown), DebugMode::SWD));
    assert!(confirms(STLinkMode::Debug(DebugMode::Unknown), DebugMode::JTAG));
    assert!(!confirms(STLinkMode::Debug(DebugMode::Unknown), DebugMode::SWIM));
    assert!(confirms(STLinkMode::Debug(DebugMode::SWIM), DebugMode::SWIM));
    assert!(confirms(STLinkMode::Debug(DebugMode::SWD), DebugMode::SWD));
    assert!(!confirms(STLinkMode::Debug(DebugMode::SWIM), DebugMode::SWD));
    assert!(!confirms(STLinkMode::Mass, DebugMode::SWD));
    assert!(!confirms(STLinkMode::DFU, DebugMode::JTAG));
    assert!(!confirms(STLinkMode::Debug(DebugMode::Unknown), DebugMode::Unknown));
}
