//! The lifecycle of one kernel service and the request/response exchange
//! with it.
//!
//! Starting an operation on a [`KernelServiceChannel`] (`install`, `open`,
//! `close`, `uninstall`, `io`, `io_struct`) checks the state and, if the
//! operation is allowed, puts it in flight and returns the [`HostRequest`] to
//! carry out.  [`KernelServiceChannel::complete`] takes the [`HostReply`],
//! finishes the operation in flight and moves the state.  One operation is
//! in flight at a time.
//!
//! Every method is proved to compute what [`ChannelModel::begin`] and
//! [`ChannelModel::complete`] say.

use vstd::prelude::*;
use vstd::slice::slice_to_vec;
use crate::descriptor::DriverDescriptor;
use crate::host::{HostReply, HostRequest, ServiceHandle};
use crate::machine::{
    outcome, state_after, ChannelModel, ChannelState, Command, CompletionModel, ErrorKind,
    ErrorModel, Pending, ReplyForm, SCALAR_REPLY_LEN,
};
use crate::wire::{put_le, read_le, WireRecord};

verus! {

/// A failed operation: which one, and why.
#[derive(Debug, PartialEq, Eq)]
pub struct ChannelError {
    pub kind: ErrorKind,
    pub reason: String,
}

impl View for ChannelError {
    type V = ErrorModel;

    open spec fn view(&self) -> ErrorModel {
        ErrorModel { kind: self.kind, reason: self.reason@ }
    }
}

/// What a finished operation hands back.
#[derive(Debug, PartialEq, Eq)]
pub enum Completion {
    /// A lifecycle step went through.
    Done,
    /// The number that answered a scalar control request.
    Scalar(u64),
    /// The bytes that answered a record control request.
    Record(Vec<u8>),
}

impl View for Completion {
    type V = CompletionModel;

    open spec fn view(&self) -> CompletionModel {
        match *self {
            Completion::Done => CompletionModel::Done,
            Completion::Scalar(value) => CompletionModel::Scalar(value),
            Completion::Record(bytes) => CompletionModel::Record(bytes@),
        }
    }
}

/// `got` is `expected`, read through the views: the same side, and on that
/// side a value whose view is the expected one.
pub open spec fn agrees<T: View, E: View>(got: Result<T, E>, expected: Result<T::V, E::V>) -> bool {
    match expected {
        Ok(value) => got is Ok && got->Ok_0@ == value,
        Err(error) => got is Err && got->Err_0@ == error,
    }
}

/// The owner of one kernel service: its registration, its handle and the
/// exchange with it.
#[derive(Debug)]
pub struct KernelServiceChannel {
    descriptor: DriverDescriptor,
    state: ChannelState,
    pending: Option<Pending>,
}

impl View for KernelServiceChannel {
    type V = ChannelModel;

    closed spec fn view(&self) -> ChannelModel {
        ChannelModel { descriptor: self.descriptor@, state: self.state, pending: self.pending }
    }
}

impl KernelServiceChannel {
    #[verifier::type_invariant]
    closed spec fn well_formed(&self) -> bool {
        self@.consistent()
    }

    /// A channel for the service that `descriptor` names.  Nothing is
    /// registered yet.
    pub fn new(descriptor: DriverDescriptor) -> (channel: Self)
        ensures
            channel@ == ChannelModel::initial(descriptor@),
    {
        proof {
            use_type_invariant(&descriptor);
        }
        KernelServiceChannel { descriptor, state: ChannelState::Uninstalled, pending: None }
    }

    /// The descriptor the channel was built from.
    pub fn descriptor(&self) -> (descriptor: &DriverDescriptor)
        ensures
            descriptor@ == self@.descriptor,
    {
        &self.descriptor
    }

    /// Where the service stands.
    pub fn state(&self) -> (state: ChannelState)
        ensures
            state == self@.state,
    {
        self.state
    }

    /// The handle to the running service, while the channel is open.
    pub fn handle(&self) -> (handle: Option<ServiceHandle>)
        ensures
            handle == (match self@.state {
                ChannelState::Opened { handle } => Some(handle),
                _ => None,
            }),
    {
        match self.state {
            ChannelState::Opened { handle } => Some(handle),
            _ => None,
        }
    }

    /// The operation that waits for the host's reply, if one does.  It is
    /// always one that the state allowed to start.
    pub fn pending(&self) -> (pending: Option<Pending>)
        ensures
            pending == self@.pending,
            pending matches Some(operation) ==> self@.objection(operation) is None,
    {
        proof {
            use_type_invariant(self);
        }
        self.pending
    }

    /// Starts registering the service.  Allowed only while nothing is
    /// registered: a second `install` without an `uninstall` between them is
    /// turned away.
    pub fn install(&mut self) -> (started: Result<HostRequest, ChannelError>)
        ensures
            final(self)@ == old(self)@.begin(Command::Install).0,
            agrees(started, old(self)@.begin(Command::Install).1),
    {
        self.start(Pending::Install, Vec::new())
    }

    /// Starts opening the channel.  Allowed on a registered service that is
    /// not open, before the first `open` or after a `close`.
    pub fn open(&mut self) -> (started: Result<HostRequest, ChannelError>)
        ensures
            final(self)@ == old(self)@.begin(Command::Open).0,
            agrees(started, old(self)@.begin(Command::Open).1),
    {
        self.start(Pending::Open, Vec::new())
    }

    /// Starts giving the handle back.  Allowed on an open channel.
    pub fn close(&mut self) -> (started: Result<HostRequest, ChannelError>)
        ensures
            final(self)@ == old(self)@.begin(Command::Close).0,
            agrees(started, old(self)@.begin(Command::Close).1),
    {
        self.start(Pending::Close, Vec::new())
    }

    /// Starts stopping and removing the service.  Allowed in every state.
    pub fn uninstall(&mut self) -> (started: Result<HostRequest, ChannelError>)
        ensures
            final(self)@ == old(self)@.begin(Command::Uninstall).0,
            agrees(started, old(self)@.begin(Command::Uninstall).1),
    {
        self.start(Pending::Uninstall, Vec::new())
    }

    /// Starts an exchange that sends the 4-byte number `input` under `code`
    /// and expects an 8-byte number back.  Allowed on an open channel.
    pub fn io(&mut self, code: u32, input: u32) -> (started: Result<HostRequest, ChannelError>)
        ensures
            final(self)@ == old(self)@.begin(Command::scalar(code, input)).0,
            agrees(started, old(self)@.begin(Command::scalar(code, input)).1),
    {
        let mut bytes: Vec<u8> = Vec::new();
        put_le(&mut bytes, input as u64, 4);
        self.start(Pending::Io { code, form: ReplyForm::Scalar }, bytes)
    }

    /// Starts an exchange that sends `input` in its wire layout under `code`
    /// and hands the answer back as bytes.  Allowed on an open channel.
    pub fn io_struct<R: WireRecord>(&mut self, code: u32, input: &R) -> (started: Result<
        HostRequest,
        ChannelError,
    >)
        ensures
            final(self)@ == old(self)@.begin(Command::record(code, input.layout())).0,
            agrees(started, old(self)@.begin(Command::record(code, input.layout())).1),
    {
        let bytes = input.to_bytes();
        self.start(Pending::Io { code, form: ReplyForm::Record }, bytes)
    }

    /// Finishes the operation in flight with the host's `reply`.
    pub fn complete(&mut self, reply: HostReply) -> (finished: Result<Completion, ChannelError>)
        ensures
            final(self)@ == old(self)@.complete(reply@).0,
            agrees(finished, old(self)@.complete(reply@).1),
    {
        proof {
            use_type_invariant(&*self);
        }
        match self.pending {
            None => Err(
                ChannelError {
                    kind: ErrorKind::Unsolicited,
                    reason: String::from_str("no request is in flight"),
                },
            ),
            Some(operation) => {
                self.pending = None;
                self.state = next_state(self.state, operation, &reply);
                finish(operation, reply)
            },
        }
    }

    /// Starts `operation`, with `input` as the bytes of an exchange.
    fn start(&mut self, operation: Pending, input: Vec<u8>) -> (started: Result<
        HostRequest,
        ChannelError,
    >)
        ensures
            final(self)@ == old(self)@.begin(operation.command(input@)).0,
            agrees(started, old(self)@.begin(operation.command(input@)).1),
    {
        proof {
            use_type_invariant(&*self);
        }
        let kind = operation.kind();
        if self.pending.is_some() {
            return Err(
                ChannelError { kind, reason: String::from_str("another request is in flight") },
            );
        }
        let request = match (operation, self.state) {
            (Pending::Install, ChannelState::Uninstalled) => HostRequest::RegisterAndStage {
                device_id: String::from_str(self.descriptor.device_id()),
                device_type: self.descriptor.device_type(),
                binary: slice_to_vec(self.descriptor.binary()),
            },
            (Pending::Install, _) => {
                return Err(
                    ChannelError { kind, reason: String::from_str("service is already installed") },
                );
            },
            (Pending::Open, ChannelState::Uninstalled) => {
                return Err(
                    ChannelError { kind, reason: String::from_str("service is not installed") },
                );
            },
            (Pending::Open, ChannelState::Opened { handle }) => {
                return Err(
                    ChannelError { kind, reason: String::from_str("channel is already open") },
                );
            },
            (Pending::Open, _) => HostRequest::StartAndOpen {
                device_id: String::from_str(self.descriptor.device_id()),
            },
            (Pending::Close, ChannelState::Opened { handle }) => HostRequest::ReleaseHandle {
                handle,
            },
            (Pending::Uninstall, _) => HostRequest::StopAndDeregister {
                device_id: String::from_str(self.descriptor.device_id()),
            },
            (Pending::Io { code, form }, ChannelState::Opened { handle }) => {
                HostRequest::SendControl { handle, code, input }
            },
            _ => {
                return Err(ChannelError { kind, reason: String::from_str("channel is not open") });
            },
        };
        self.pending = Some(operation);
        Ok(request)
    }
}

/// The state that `operation`, started in `state`, leaves behind when the
/// host answered `reply`.
pub fn next_state(state: ChannelState, operation: Pending, reply: &HostReply) -> (next:
    ChannelState)
    ensures
        next == state_after(state, operation, reply@),
{
    match (operation, reply) {
        (Pending::Install, HostReply::Done) => ChannelState::Installed,
        (Pending::Open, HostReply::Handle(handle)) => ChannelState::Opened { handle: *handle },
        (Pending::Close, _) => ChannelState::Closed,
        (Pending::Uninstall, HostReply::Done) => ChannelState::Uninstalled,
        _ => state,
    }
}

/// What the caller of `operation` gets when the host answered `reply`.
pub fn finish(operation: Pending, reply: HostReply) -> (finished: Result<Completion, ChannelError>)
    ensures
        agrees(finished, outcome(operation, reply@)),
{
    let kind = operation.kind();
    match (operation, reply) {
        (_, HostReply::Failed(reason)) => Err(ChannelError { kind, reason }),
        (Pending::Install, HostReply::Done) => Ok(Completion::Done),
        (Pending::Open, HostReply::Handle(handle)) => Ok(Completion::Done),
        (Pending::Close, HostReply::Done) => Ok(Completion::Done),
        (Pending::Uninstall, HostReply::Done) => Ok(Completion::Done),
        (Pending::Io { code, form: ReplyForm::Scalar }, HostReply::Output(bytes)) => {
            if bytes.len() != SCALAR_REPLY_LEN {
                return Err(
                    ChannelError { kind, reason: String::from_str("reply is not an 8-byte value") },
                );
            }
            match read_le(bytes.as_slice()) {
                Some(value) => Ok(Completion::Scalar(value)),
                None => Err(
                    ChannelError { kind, reason: String::from_str("reply is not an 8-byte value") },
                ),
            }
        },
        (Pending::Io { code, form: ReplyForm::Record }, HostReply::Output(bytes)) => Ok(
            Completion::Record(bytes),
        ),
        _ => Err(ChannelError { kind, reason: String::from_str("unexpected reply from the host") }),
    }
}

} // verus!
