//! Typed access to model-specific registers through the WinRing0 driver.
//!
//! [`WinRing0`] owns a [`KernelServiceChannel`] for the driver and adds the
//! register helpers on top of it.  Like the channel it only decides: each
//! method starts an operation and returns the [`HostRequest`] to carry out,
//! and [`WinRing0::complete`] turns the host's reply into the operation's
//! result.  Failures of the helpers come back with a message that names the
//! helper in front of the channel's reason, and with the channel's error as
//! the cause.

use vstd::prelude::*;
use crate::channel::{agrees, ChannelError, Completion, KernelServiceChannel};
use crate::descriptor::{DescriptorModel, DriverBuilder};
use crate::host::{HostReply, HostRequest, ReplyModel, RequestModel};
use crate::ioctl::IOCTL;
use crate::machine::{ChannelModel, Command, CompletionModel, ErrorModel};
use crate::wire::{le_bytes, lemma_le_bytes_len, padding, put_le, WireRecord};

verus! {

/// Selector of a model-specific register.  Which selectors mean something is
/// up to the processor.
pub type MsrAddress = u32;

/// Contents of a model-specific register.
pub type MsrValue = u64;

/// Selector of the time-stamp counter, a register that every processor has.
pub const MSR_TSC: MsrAddress = 0x10;

/// Device type under which the driver creates its device.
pub const OLS_TYPE: u32 = 40000;

/// Input of [`IOCTL::OLS_WRITE_MSR`]: the selector, four bytes of filler that
/// bring the value to its natural alignment, and the value.
#[derive(Clone, Copy, Debug, PartialEq, Eq)]
pub struct OlsWriteMsrInput {
    pub register: MsrAddress,
    pub value: MsrValue,
}

impl WireRecord for OlsWriteMsrInput {
    open spec fn layout(&self) -> Seq<u8> {
        le_bytes(self.register as nat, 4) + padding(4) + le_bytes(self.value as nat, 8)
    }

    fn to_bytes(&self) -> (bytes: Vec<u8>) {
        let mut bytes: Vec<u8> = Vec::new();
        put_le(&mut bytes, self.register as u64, 4);
        put_le(&mut bytes, 0, 4);
        put_le(&mut bytes, self.value, 8);
        proof {
            lemma_zero_is_padding(4);
            assert(bytes@ =~= self.layout());
        }
        bytes
    }
}

/// The digits of zero are filler.
proof fn lemma_zero_is_padding(width: nat)
    ensures
        le_bytes(0, width) == padding(width),
    decreases width,
{
    if width > 0 {
        lemma_zero_is_padding((width - 1) as nat);
        lemma_le_bytes_len(0, (width - 1) as nat);
    }
    assert(le_bytes(0, width) =~= padding(width));
}

/// The helper that started the exchange in flight.
#[derive(Clone, Copy, Debug, PartialEq, Eq)]
pub enum Purpose {
    ReadMsr,
    WriteMsr,
    GetStatus,
    RawIo,
}

/// What a finished operation of [`WinRing0`] hands back.
#[derive(Clone, Copy, Debug, PartialEq, Eq)]
pub enum Outcome {
    /// The operation went through and has no value to give.
    Done,
    /// The number that the driver answered.
    Value(u64),
}

impl View for Outcome {
    type V = Outcome;

    open spec fn view(&self) -> Outcome {
        *self
    }
}

/// A failed operation of [`WinRing0`].
#[derive(Debug, PartialEq, Eq)]
pub struct Ring0Error {
    /// Which helper failed, and the channel's reason behind it.
    pub message: String,
    /// The channel's error, for callers that act on its kind.
    pub cause: ChannelError,
}

/// A [`Ring0Error`] as mathematical values.
pub struct Ring0ErrorModel {
    pub message: Seq<char>,
    pub cause: ErrorModel,
}

impl View for Ring0Error {
    type V = Ring0ErrorModel;

    open spec fn view(&self) -> Ring0ErrorModel {
        Ring0ErrorModel { message: self.message@, cause: self.cause@ }
    }
}

/// What stands in front of the channel's reason in a helper's message.  The
/// lifecycle operations put nothing there.
pub open spec fn prefix(purpose: Option<Purpose>) -> Seq<char> {
    match purpose {
        None => Seq::empty(),
        Some(Purpose::ReadMsr) => "Error reading msr: "@,
        Some(Purpose::WriteMsr) => "Error writing MSR: "@,
        Some(Purpose::GetStatus) => "WinRing0 not operational: "@ + "Error reading msr: "@,
        Some(Purpose::RawIo) => "Error doing IO: "@,
    }
}

/// The error of a helper whose channel operation failed with `cause`.
pub open spec fn wrapped(purpose: Option<Purpose>, cause: ErrorModel) -> Ring0ErrorModel {
    Ring0ErrorModel { message: prefix(purpose) + cause.reason, cause }
}

/// What a helper hands back for the channel's `completion`.  The answer to a
/// record exchange carries nothing the helpers use.
pub open spec fn outcome_of(completion: CompletionModel) -> Outcome {
    match completion {
        CompletionModel::Scalar(value) => Outcome::Value(value),
        _ => Outcome::Done,
    }
}

/// The exchange that reads register `msr`.
pub open spec fn read_command(msr: MsrAddress) -> Command {
    Command::scalar(IOCTL::OLS_READ_MSR.spec_code(), msr)
}

/// The exchange that writes `value` to register `msr`.
pub open spec fn write_command(msr: MsrAddress, value: MsrValue) -> Command {
    Command::record(
        IOCTL::OLS_WRITE_MSR.spec_code(),
        (OlsWriteMsrInput { register: msr, value }).layout(),
    )
}

/// The exchange that sends `in_buffer` under `ioctl`.
pub open spec fn raw_command(ioctl: IOCTL, in_buffer: u32) -> Command {
    Command::scalar(ioctl.spec_code(), in_buffer)
}

/// A [`WinRing0`] as mathematical values.
pub struct Ring0Model {
    pub channel: ChannelModel,
    pub purpose: Option<Purpose>,
}

impl Ring0Model {
    /// The descriptor of the driver that ships as `driver_bin`.
    pub open spec fn descriptor(driver_bin: Seq<u8>) -> DescriptorModel {
        DescriptorModel {
            description: "Rust winRing0 driver"@,
            device_id: "WinRing0_1_2_0"@,
            device_type: OLS_TYPE,
            binary: driver_bin,
        }
    }

    /// The client right after construction.
    pub open spec fn initial(driver_bin: Seq<u8>) -> Self {
        Ring0Model { channel: ChannelModel::initial(Self::descriptor(driver_bin)), purpose: None }
    }

    /// Starts `command` on behalf of `purpose`: the channel starts it, and a
    /// refusal comes back under the purpose's prefix and changes nothing.
    pub open spec fn begin(self, purpose: Option<Purpose>, command: Command) -> (Ring0Model, Result<
        RequestModel,
        Ring0ErrorModel,
    >) {
        match self.channel.begin(command).1 {
            Ok(request) => (
                Ring0Model { channel: self.channel.begin(command).0, purpose },
                Ok(request),
            ),
            Err(cause) => (self, Err(wrapped(purpose, cause))),
        }
    }

    /// Finishes the operation in flight with `reply`: the channel finishes
    /// it, and a failure comes back under the prefix of the purpose that
    /// started it.
    pub open spec fn complete(self, reply: ReplyModel) -> (Ring0Model, Result<
        Outcome,
        Ring0ErrorModel,
    >) {
        (
            Ring0Model { channel: self.channel.complete(reply).0, purpose: None },
            match self.channel.complete(reply).1 {
                Ok(completion) => Ok(outcome_of(completion)),
                Err(cause) => Err(wrapped(self.purpose, cause)),
            },
        )
    }

    /// One whole exchange: `command` is started for `purpose` and the host
    /// answers with `reply`.
    pub open spec fn exchange(self, purpose: Purpose, command: Command, reply: ReplyModel) -> (
        Ring0Model,
        Result<Outcome, Ring0ErrorModel>,
    ) {
        self.begin(Some(purpose), command).0.complete(reply)
    }
}

/// The channel inside a client moves as a channel on its own does: starting
/// and finishing an operation through the client is starting and finishing
/// it on the channel.  What is proved of runs of the channel therefore holds
/// of the client.
pub proof fn lemma_client_follows_channel(
    ring: Ring0Model,
    purpose: Option<Purpose>,
    command: Command,
    reply: ReplyModel,
)
    ensures
        ring.begin(purpose, command).0.channel == ring.channel.begin(command).0,
        ring.begin(purpose, command).1 is Ok <==> ring.channel.begin(command).1 is Ok,
        ring.complete(reply).0.channel == ring.channel.complete(reply).0,
        ring.complete(reply).1 is Ok <==> ring.channel.complete(reply).1 is Ok,
{
}

/// Client of the WinRing0 driver.
#[derive(Debug)]
pub struct WinRing0 {
    driver: KernelServiceChannel,
    purpose: Option<Purpose>,
}

impl View for WinRing0 {
    type V = Ring0Model;

    closed spec fn view(&self) -> Ring0Model {
        Ring0Model { channel: self.driver@, purpose: self.purpose }
    }
}

#[allow(non_snake_case)]
impl WinRing0 {
    /// A client for the driver whose binary is `driver_bin`.  Nothing is
    /// installed yet.
    pub fn new(driver_bin: Vec<u8>) -> (ring: Self)
        requires
            driver_bin@.len() > 0,
        ensures
            ring@ == Ring0Model::initial(driver_bin@),
    {
        let built = DriverBuilder::new().set_device_description(
            "Rust winRing0 driver",
        ).set_device_id("WinRing0_1_2_0").set_device_type(OLS_TYPE).set_driver_bin(
            driver_bin,
        ).build();
        proof {
            reveal_strlit("Rust winRing0 driver");
            reveal_strlit("WinRing0_1_2_0");
        }
        let descriptor = built.unwrap();
        WinRing0 { driver: KernelServiceChannel::new(descriptor), purpose: None }
    }

    /// The channel to the driver.
    pub fn channel(&self) -> (channel: &KernelServiceChannel)
        ensures
            channel@ == self@.channel,
    {
        &self.driver
    }

    /// Install the winRing0 driver.
    pub fn install(&mut self) -> (started: Result<HostRequest, Ring0Error>)
        ensures
            final(self)@ == old(self)@.begin(None, Command::Install).0,
            agrees(started, old(self)@.begin(None, Command::Install).1),
    {
        let started = self.driver.install();
        self.track(None, started)
    }

    /// Open the winRing0 driver for communication.
    pub fn open(&mut self) -> (started: Result<HostRequest, Ring0Error>)
        ensures
            final(self)@ == old(self)@.begin(None, Command::Open).0,
            agrees(started, old(self)@.begin(None, Command::Open).1),
    {
        let started = self.driver.open();
        self.track(None, started)
    }

    /// Close the winRing0 driver handle.
    pub fn close(&mut self) -> (started: Result<HostRequest, Ring0Error>)
        ensures
            final(self)@ == old(self)@.begin(None, Command::Close).0,
            agrees(started, old(self)@.begin(None, Command::Close).1),
    {
        let started = self.driver.close();
        self.track(None, started)
    }

    /// Uninstall the winRing0 driver.
    pub fn uninstall(&mut self) -> (started: Result<HostRequest, Ring0Error>)
        ensures
            final(self)@ == old(self)@.begin(None, Command::Uninstall).0,
            agrees(started, old(self)@.begin(None, Command::Uninstall).1),
    {
        let started = self.driver.uninstall();
        self.track(None, started)
    }

    /// Read an MSR register.
    pub fn readMsr(&mut self, msr: MsrAddress) -> (started: Result<HostRequest, Ring0Error>)
        ensures
            final(self)@ == old(self)@.begin(Some(Purpose::ReadMsr), read_command(msr)).0,
            agrees(started, old(self)@.begin(Some(Purpose::ReadMsr), read_command(msr)).1),
    {
        let started = self.driver.io(IOCTL::OLS_READ_MSR.code(), msr);
        self.track(Some(Purpose::ReadMsr), started)
    }

    /// Write a MSR register.
    pub fn writeMsr(&mut self, msr: MsrAddress, value: MsrValue) -> (started: Result<
        HostRequest,
        Ring0Error,
    >)
        ensures
            final(self)@ == old(self)@.begin(
                Some(Purpose::WriteMsr),
                write_command(msr, value),
            ).0,
            agrees(
                started,
                old(self)@.begin(Some(Purpose::WriteMsr), write_command(msr, value)).1,
            ),
    {
        let input = OlsWriteMsrInput { register: msr, value };
        let started = self.driver.io_struct(IOCTL::OLS_WRITE_MSR.code(), &input);
        self.track(Some(Purpose::WriteMsr), started)
    }

    /// Get the status: reads the time-stamp counter to see whether the
    /// driver answers at all.
    pub fn getStatus(&mut self) -> (started: Result<HostRequest, Ring0Error>)
        ensures
            final(self)@ == old(self)@.begin(
                Some(Purpose::GetStatus),
                read_command(MSR_TSC),
            ).0,
            agrees(
                started,
                old(self)@.begin(Some(Purpose::GetStatus), read_command(MSR_TSC)).1,
            ),
    {
        let started = self.driver.io(IOCTL::OLS_READ_MSR.code(), MSR_TSC);
        self.track(Some(Purpose::GetStatus), started)
    }

    /// Raw IO function: sends `in_buffer` under `ioctl` and expects a number
    /// back.
    pub fn io(&mut self, ioctl: IOCTL, in_buffer: u32) -> (started: Result<
        HostRequest,
        Ring0Error,
    >)
        ensures
            final(self)@ == old(self)@.begin(
                Some(Purpose::RawIo),
                raw_command(ioctl, in_buffer),
            ).0,
            agrees(
                started,
                old(self)@.begin(Some(Purpose::RawIo), raw_command(ioctl, in_buffer)).1,
            ),
    {
        let started = self.driver.io(ioctl.code(), in_buffer);
        self.track(Some(Purpose::RawIo), started)
    }

    /// Finishes the operation in flight with the host's `reply`.
    pub fn complete(&mut self, reply: HostReply) -> (finished: Result<Outcome, Ring0Error>)
        ensures
            final(self)@ == old(self)@.complete(reply@).0,
            agrees(finished, old(self)@.complete(reply@).1),
    {
        let purpose = self.purpose;
        self.purpose = None;
        match self.driver.complete(reply) {
            Ok(Completion::Scalar(value)) => Ok(Outcome::Value(value)),
            Ok(_) => Ok(Outcome::Done),
            Err(cause) => Err(wrap(purpose, cause)),
        }
    }

    /// Records the purpose of an operation that the channel started, or
    /// wraps the channel's refusal.
    fn track(
        &mut self,
        purpose: Option<Purpose>,
        started: Result<HostRequest, ChannelError>,
    ) -> (wrapped: Result<HostRequest, Ring0Error>)
        ensures
            final(self)@.channel == old(self)@.channel,
            (match started {
                Ok(request) => {
                    &&& wrapped == Ok::<HostRequest, Ring0Error>(request)
                    &&& final(self)@.purpose == purpose
                },
                Err(cause) => {
                    &&& wrapped is Err
                    &&& wrapped->Err_0@ == crate::ring0::wrapped(purpose, cause@)
                    &&& final(self)@.purpose == old(self)@.purpose
                },
            }),
    {
        match started {
            Ok(request) => {
                self.purpose = purpose;
                Ok(request)
            },
            Err(cause) => Err(wrap(purpose, cause)),
        }
    }
}

/// Puts the prefix of `purpose` in front of the reason of `cause`.
fn wrap(purpose: Option<Purpose>, cause: ChannelError) -> (error: Ring0Error)
    ensures
        error@ == wrapped(purpose, cause@),
{
    let message = match purpose {
        None => String::new(),
        Some(Purpose::ReadMsr) => String::from_str("Error reading msr: "),
        Some(Purpose::WriteMsr) => String::from_str("Error writing MSR: "),
        Some(Purpose::GetStatus) => String::from_str("WinRing0 not operational: ").concat(
            "Error reading msr: ",
        ),
        Some(Purpose::RawIo) => String::from_str("Error doing IO: "),
    };
    let message = message.concat(cause.reason.as_str());
    Ring0Error { message, cause }
}

} // verus!
