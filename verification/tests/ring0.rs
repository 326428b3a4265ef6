use std::collections::HashMap;
use win_ring0::machine::{ChannelState, ErrorKind};
use win_ring0::host::{HostReply, HostRequest, ServiceHandle};
use win_ring0::ioctl::IOCTL;
use win_ring0::ring0::{Outcome, Ring0Error, WinRing0, MSR_TSC, OLS_TYPE};

/// A service-control subsystem and a driver that live in memory.  The driver
/// keeps the last value written to each register; with `counter` set, reads
/// of the time-stamp counter count up instead.
struct StubHost {
    registered: Option<String>,
    open: Option<u64>,
    handles_given: u64,
    registers: HashMap<u32, u64>,
    counter: Option<u64>,
}

impl StubHost {
    fn new() -> Self {
        StubHost {
            registered: None,
            open: None,
            handles_given: 0,
            registers: HashMap::new(),
            counter: None,
        }
    }

    fn perform(&mut self, request: HostRequest) -> HostReply {
        match request {
            HostRequest::RegisterAndStage { device_id, binary, .. } => {
                if self.registered.is_some() {
                    HostReply::Failed("the service already exists".to_string())
                } else if binary.is_empty() {
                    HostReply::Failed("the binary is not a driver".to_string())
                } else {
                    self.registered = Some(device_id);
                    HostReply::Done
                }
            }
            HostRequest::StartAndOpen { device_id } => {
                if self.registered.as_deref() != Some(device_id.as_str()) {
                    HostReply::Failed("the service does not exist".to_string())
                } else if self.open.is_some() {
                    HostReply::Failed("the device is in use".to_string())
                } else {
                    self.handles_given += 1;
                    self.open = Some(self.handles_given);
                    HostReply::Handle(ServiceHandle { raw: self.handles_given })
                }
            }
            HostRequest::ReleaseHandle { handle } => {
                if self.open == Some(handle.raw) {
                    self.open = None;
                    HostReply::Done
                } else {
                    HostReply::Failed("the handle is invalid".to_string())
                }
            }
            HostRequest::StopAndDeregister { device_id } => {
                if self.registered.as_deref() == Some(device_id.as_str()) {
                    self.registered = None;
                    self.open = None;
                    HostReply::Done
                } else {
                    HostReply::Failed("the service does not exist".to_string())
                }
            }
            HostRequest::SendControl { handle, code, input } => {
                if self.open != Some(handle.raw) {
                    return HostReply::Failed("the handle is invalid".to_string());
                }
                match IOCTL::from_code(code) {
                    Some(IOCTL::OLS_READ_MSR) if input.len() == 4 => {
                        let selector = u32::from_le_bytes([input[0], input[1], input[2], input[3]]);
                        let value = match (selector, self.counter) {
                            (MSR_TSC, Some(ticks)) => {
                                self.counter = Some(ticks + 3);
                                ticks
                            }
                            _ => *self.registers.get(&selector).unwrap_or(&0),
                        };
                        HostReply::Output(value.to_le_bytes().to_vec())
                    }
                    Some(IOCTL::OLS_WRITE_MSR) if input.len() == 16 => {
                        let selector = u32::from_le_bytes([input[0], input[1], input[2], input[3]]);
                        let mut value = [0u8; 8];
                        value.copy_from_slice(&input[8..16]);
                        self.registers.insert(selector, u64::from_le_bytes(value));
                        HostReply::Output(Vec::new())
                    }
                    _ => HostReply::Failed(format!("unknown control code {:#x}", code)),
                }
            }
        }
    }
}

fn run(
    ring: &mut WinRing0,
    host: &mut StubHost,
    started: Result<HostRequest, Ring0Error>,
) -> Result<Outcome, Ring0Error> {
    match started {
        Ok(request) => {
            let reply = host.perform(request);
            ring.complete(reply)
        }
        Err(error) => Err(error),
    }
}

fn install(ring: &mut WinRing0, host: &mut StubHost) -> Result<Outcome, Ring0Error> {
    let started = ring.install();
    run(ring, host, started)
}

fn open(ring: &mut WinRing0, host: &mut StubHost) -> Result<Outcome, Ring0Error> {
    let started = ring.open();
    run(ring, host, started)
}

fn close(ring: &mut WinRing0, host: &mut StubHost) -> Result<Outcome, Ring0Error> {
    let started = ring.close();
    run(ring, host, started)
}

fn uninstall(ring: &mut WinRing0, host: &mut StubHost) -> Result<Outcome, Ring0Error> {
    let started = ring.uninstall();
    run(ring, host, started)
}

fn read_msr(ring: &mut WinRing0, host: &mut StubHost, msr: u32) -> Result<Outcome, Ring0Error> {
    let started = ring.readMsr(msr);
    run(ring, host, started)
}

fn write_msr(
    ring: &mut WinRing0,
    host: &mut StubHost,
    msr: u32,
    value: u64,
) -> Result<Outcome, Ring0Error> {
    let started = ring.writeMsr(msr, value);
    run(ring, host, started)
}

fn get_status(ring: &mut WinRing0, host: &mut StubHost) -> Result<Outcome, Ring0Error> {
    let started = ring.getStatus();
    run(ring, host, started)
}

fn opened() -> (WinRing0, StubHost) {
    let mut ring = WinRing0::new(vec![0x4d, 0x5a]);
    let mut host = StubHost::new();
    assert_eq!(install(&mut ring, &mut host), Ok(Outcome::Done));
    assert_eq!(open(&mut ring, &mut host), Ok(Outcome::Done));
    (ring, host)
}

#[test]
fn new_ring_describes_the_winring0_driver() {
    let ring = WinRing0::new(vec![1, 2, 3]);
    let descriptor = ring.channel().descriptor();
    assert_eq!(descriptor.description(), "Rust winRing0 driver");
    assert_eq!(descriptor.device_id(), "WinRing0_1_2_0");
    assert_eq!(descriptor.device_type(), 40000);
    assert_eq!(OLS_TYPE, 40000);
    assert_eq!(descriptor.binary(), &[1, 2, 3]);
    assert_eq!(ring.channel().state(), ChannelState::Uninstalled);
    assert_eq!(ring.channel().pending(), None);
}

#[test]
fn install_hands_the_binary_to_the_host() {
    let mut ring = WinRing0::new(vec![9, 8, 7]);
    assert_eq!(
        ring.install(),
        Ok(HostRequest::RegisterAndStage {
            device_id: "WinRing0_1_2_0".to_string(),
            device_type: 40000,
            binary: vec![9, 8, 7],
        })
    );
}

#[test]
fn full_lifecycle_against_stub_loader() {
    let mut ring = WinRing0::new(vec![0x4d, 0x5a]);
    let mut host = StubHost::new();
    assert_eq!(install(&mut ring, &mut host), Ok(Outcome::Done));
    assert_eq!(open(&mut ring, &mut host), Ok(Outcome::Done));
    assert!(ring.channel().handle().is_some());
    assert_eq!(write_msr(&mut ring, &mut host, 0x10, 42), Ok(Outcome::Done));
    assert_eq!(read_msr(&mut ring, &mut host, 0x10), Ok(Outcome::Value(42)));
    assert_eq!(close(&mut ring, &mut host), Ok(Outcome::Done));
    assert_eq!(uninstall(&mut ring, &mut host), Ok(Outcome::Done));
    let reopened = open(&mut ring, &mut host).unwrap_err();
    assert_eq!(reopened.cause.kind, ErrorKind::Open);
    assert_eq!(reopened.message, "service is not installed");
    assert_eq!(ring.channel().state(), ChannelState::Uninstalled);
    assert_eq!(ring.channel().handle(), None);
}

#[test]
fn open_on_service_removed_behind_the_channel_fails() {
    let mut ring = WinRing0::new(vec![0x4d, 0x5a]);
    let mut host = StubHost::new();
    assert_eq!(install(&mut ring, &mut host), Ok(Outcome::Done));
    host.registered = None;
    let failed = open(&mut ring, &mut host).unwrap_err();
    assert_eq!(failed.cause.kind, ErrorKind::Open);
    assert_eq!(failed.message, "the service does not exist");
    assert_eq!(ring.channel().handle(), None);
}

#[test]
fn open_before_install_never_gives_a_handle() {
    let mut ring = WinRing0::new(vec![1]);
    let mut host = StubHost::new();
    let failed = open(&mut ring, &mut host).unwrap_err();
    assert_eq!(failed.cause.kind, ErrorKind::Open);
    assert_eq!(ring.channel().handle(), None);
    assert_eq!(host.handles_given, 0);
    assert!(read_msr(&mut ring, &mut host, 0x10).is_err());
}

#[test]
fn second_install_fails() {
    let mut ring = WinRing0::new(vec![1]);
    let mut host = StubHost::new();
    assert_eq!(install(&mut ring, &mut host), Ok(Outcome::Done));
    let failed = install(&mut ring, &mut host).unwrap_err();
    assert_eq!(failed.cause.kind, ErrorKind::Install);
    assert_eq!(failed.message, "service is already installed");
}

#[test]
fn install_over_existing_service_fails() {
    let mut ring = WinRing0::new(vec![1]);
    let mut host = StubHost::new();
    host.registered = Some("WinRing0_1_2_0".to_string());
    let failed = install(&mut ring, &mut host).unwrap_err();
    assert_eq!(failed.cause.kind, ErrorKind::Install);
    assert_eq!(failed.message, "the service already exists");
    assert_eq!(ring.channel().state(), ChannelState::Uninstalled);
    assert_eq!(uninstall(&mut ring, &mut host), Ok(Outcome::Done));
    assert_eq!(install(&mut ring, &mut host), Ok(Outcome::Done));
}

#[test]
fn no_io_after_close_without_open() {
    let (mut ring, mut host) = opened();
    assert_eq!(write_msr(&mut ring, &mut host, 0x20, 7), Ok(Outcome::Done));
    assert_eq!(close(&mut ring, &mut host), Ok(Outcome::Done));
    let read = read_msr(&mut ring, &mut host, 0x20).unwrap_err();
    assert_eq!(read.message, "Error reading msr: channel is not open");
    let write = write_msr(&mut ring, &mut host, 0x20, 8).unwrap_err();
    assert_eq!(write.message, "Error writing MSR: channel is not open");
    let status = get_status(&mut ring, &mut host).unwrap_err();
    assert_eq!(status.message, "WinRing0 not operational: Error reading msr: channel is not open");
    let started = ring.io(IOCTL::OLS_READ_PMC, 0);
    let raw = run(&mut ring, &mut host, started).unwrap_err();
    assert_eq!(raw.message, "Error doing IO: channel is not open");
    assert_eq!(open(&mut ring, &mut host), Ok(Outcome::Done));
    assert_eq!(read_msr(&mut ring, &mut host, 0x20), Ok(Outcome::Value(7)));
}

#[test]
fn write_then_read_returns_what_was_written() {
    let (mut ring, mut host) = opened();
    let cases = [
        (0x10u32, 42u64),
        (0, 0),
        (0xc001_0015, u64::MAX),
        (u32::MAX, 0x0102_0304_0506_0708),
        (0x1a0, 1 << 63),
    ];
    for (msr, value) in cases {
        assert_eq!(write_msr(&mut ring, &mut host, msr, value), Ok(Outcome::Done));
        assert_eq!(read_msr(&mut ring, &mut host, msr), Ok(Outcome::Value(value)));
    }
    assert_eq!(read_msr(&mut ring, &mut host, 0x10), Ok(Outcome::Value(42)));
    assert_eq!(write_msr(&mut ring, &mut host, 0x10, 43), Ok(Outcome::Done));
    assert_eq!(read_msr(&mut ring, &mut host, 0x10), Ok(Outcome::Value(43)));
}

#[test]
fn read_msr_request_on_the_wire() {
    let (mut ring, _host) = opened();
    let handle = ring.channel().handle().unwrap();
    assert_eq!(
        ring.readMsr(0xc001_0015),
        Ok(HostRequest::SendControl { handle, code: 0x821, input: vec![0x15, 0x00, 0x01, 0xc0] })
    );
}

#[test]
fn write_msr_request_on_the_wire() {
    let (mut ring, _host) = opened();
    let handle = ring.channel().handle().unwrap();
    assert_eq!(
        ring.writeMsr(0x10, 42),
        Ok(HostRequest::SendControl {
            handle,
            code: 0x822,
            input: vec![0x10, 0, 0, 0, 0, 0, 0, 0, 42, 0, 0, 0, 0, 0, 0, 0],
        })
    );
}

#[test]
fn get_status_reads_the_time_stamp_counter() {
    let (mut ring, _host) = opened();
    let handle = ring.channel().handle().unwrap();
    assert_eq!(MSR_TSC, 0x10);
    assert_eq!(
        ring.getStatus(),
        Ok(HostRequest::SendControl { handle, code: 0x821, input: vec![0x10, 0, 0, 0] })
    );
    assert_eq!(
        ring.complete(HostReply::Output(vec![0x39, 0x30, 0, 0, 0, 0, 0, 0])),
        Ok(Outcome::Value(12345))
    );
}

#[test]
fn get_status_never_runs_backwards() {
    let (mut ring, mut host) = opened();
    host.counter = Some(1000);
    let mut last = 0;
    for _ in 0..20 {
        match get_status(&mut ring, &mut host) {
            Ok(Outcome::Value(ticks)) => {
                assert!(ticks >= last);
                last = ticks;
            }
            other => panic!("status failed: {:?}", other),
        }
    }
    assert_eq!(last, 1000 + 19 * 3);
}

#[test]
fn raw_io_sends_the_code_of_the_ioctl() {
    let (mut ring, _host) = opened();
    let handle = ring.channel().handle().unwrap();
    assert_eq!(
        ring.io(IOCTL::OLS_READ_PMC, 2),
        Ok(HostRequest::SendControl { handle, code: 0x823, input: vec![2, 0, 0, 0] })
    );
    assert_eq!(
        ring.complete(HostReply::Output(vec![1, 1, 0, 0, 0, 0, 0, 0])),
        Ok(Outcome::Value(257))
    );
}

#[test]
fn raw_io_rejected_by_the_driver() {
    let (mut ring, mut host) = opened();
    let started = ring.io(IOCTL::OLS_READ_PMC, 0);
    let failed = run(&mut ring, &mut host, started).unwrap_err();
    assert_eq!(failed.message, "Error doing IO: unknown control code 0x823");
    assert_eq!(failed.cause.kind, ErrorKind::Io { code: 0x823 });
    assert_eq!(failed.cause.reason, "unknown control code 0x823");
}

#[test]
fn read_failure_is_wrapped() {
    let (mut ring, _host) = opened();
    ring.readMsr(0x10).unwrap();
    let failed = ring.complete(HostReply::Failed("access denied".to_string())).unwrap_err();
    assert_eq!(failed.message, "Error reading msr: access denied");
    assert_eq!(failed.cause.kind, ErrorKind::Io { code: 0x821 });
    assert_eq!(failed.cause.reason, "access denied");
}

#[test]
fn write_failure_is_wrapped() {
    let (mut ring, _host) = opened();
    ring.writeMsr(0x10, 1).unwrap();
    let failed = ring.complete(HostReply::Failed("access denied".to_string())).unwrap_err();
    assert_eq!(failed.message, "Error writing MSR: access denied");
    assert_eq!(failed.cause.kind, ErrorKind::Io { code: 0x822 });
}

#[test]
fn status_failure_is_wrapped_twice() {
    let (mut ring, _host) = opened();
    ring.getStatus().unwrap();
    let failed = ring.complete(HostReply::Failed("device removed".to_string())).unwrap_err();
    assert_eq!(failed.message, "WinRing0 not operational: Error reading msr: device removed");
    assert_eq!(failed.cause.kind, ErrorKind::Io { code: 0x821 });
}

#[test]
fn short_answer_to_a_read_is_a_failure() {
    let (mut ring, _host) = opened();
    ring.readMsr(0x10).unwrap();
    let failed = ring.complete(HostReply::Output(vec![1, 2, 3, 4])).unwrap_err();
    assert_eq!(failed.message, "Error reading msr: reply is not an 8-byte value");
}

#[test]
fn lifecycle_failures_are_not_prefixed() {
    let mut ring = WinRing0::new(vec![1]);
    ring.install().unwrap();
    let failed = ring.complete(HostReply::Failed("access denied".to_string())).unwrap_err();
    assert_eq!(failed.message, "access denied");
    assert_eq!(failed.cause.kind, ErrorKind::Install);

    let (mut ring, _host) = opened();
    ring.close().unwrap();
    let failed = ring.complete(HostReply::Failed("invalid handle".to_string())).unwrap_err();
    assert_eq!(failed.message, "invalid handle");
    assert_eq!(failed.cause.kind, ErrorKind::Close);
    assert_eq!(ring.channel().state(), ChannelState::Closed);

    ring.uninstall().unwrap();
    let failed = ring.complete(HostReply::Failed("marked for deletion".to_string())).unwrap_err();
    assert_eq!(failed.message, "marked for deletion");
    assert_eq!(failed.cause.kind, ErrorKind::Uninstall);
}

#[test]
fn prefix_follows_the_operation_in_flight() {
    let (mut ring, _host) = opened();
    ring.readMsr(0x10).unwrap();
    let refused = ring.writeMsr(0x10, 1).unwrap_err();
    assert_eq!(refused.message, "Error writing MSR: another request is in flight");
    let failed = ring.complete(HostReply::Failed("timeout".to_string())).unwrap_err();
    assert_eq!(failed.message, "Error reading msr: timeout");
    ring.close().unwrap();
    let failed = ring.complete(HostReply::Failed("timeout".to_string())).unwrap_err();
    assert_eq!(failed.message, "timeout");
}

#[test]
fn stray_reply_is_an_error() {
    let (mut ring, _host) = opened();
    let failed = ring.complete(HostReply::Output(vec![0; 8])).unwrap_err();
    assert_eq!(failed.cause.kind, ErrorKind::Unsolicited);
    assert_eq!(failed.message, "no request is in flight");
}

#[test]
fn ioctl_codes() {
    assert_eq!(IOCTL::OLS_READ_MSR.code(), 0x821);
    assert_eq!(IOCTL::OLS_WRITE_MSR.code(), 0x822);
    assert_eq!(IOCTL::OLS_READ_PMC.code(), 0x823);
    assert_eq!(IOCTL::from_code(0x821), Some(IOCTL::OLS_READ_MSR));
    assert_eq!(IOCTL::from_code(0x822), Some(IOCTL::OLS_WRITE_MSR));
    assert_eq!(IOCTL::from_code(0x823), Some(IOCTL::OLS_READ_PMC));
    assert_eq!(IOCTL::from_code(0xFFFF), None);
    assert_eq!(IOCTL::from_code(0), None);
}
