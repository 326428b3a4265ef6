//! The channel as a state machine over mathematical values.
//!
//! A channel is in one of four states and has at most one operation in
//! flight.  Two functions say all there is to say about it:
//! [`ChannelModel::begin`] starts an operation, or turns it away, and
//! [`ChannelModel::complete`] finishes the operation in flight with the
//! host's reply.  The theorems at the end of the file are about runs of the
//! machine: what no sequence of operations and replies can bring about.

use vstd::prelude::*;
use crate::descriptor::DescriptorModel;
use crate::host::{ReplyModel, RequestModel, ServiceHandle};
use crate::wire::{le_bytes, le_value};

verus! {

/// Where the service stands.
#[derive(Clone, Copy, Debug, PartialEq, Eq)]
pub enum ChannelState {
    /// No service is registered.
    Uninstalled,
    /// The service is registered and has not been opened since.
    Installed,
    /// The service runs and the channel holds the one handle to it.
    Opened { handle: ServiceHandle },
    /// The handle has been given back; the service is still registered.
    Closed,
}

/// How the answer to a control request is to be read.
#[derive(Clone, Copy, Debug, PartialEq, Eq)]
pub enum ReplyForm {
    /// One 8-byte little-endian number.
    Scalar,
    /// Bytes of a record, handed on as they are.
    Record,
}

/// The operation that waits for the host's reply.
#[derive(Clone, Copy, Debug, PartialEq, Eq)]
pub enum Pending {
    Install,
    Open,
    Close,
    Uninstall,
    Io { code: u32, form: ReplyForm },
}

/// An operation that a caller asks the channel to start.
pub enum Command {
    Install,
    Open,
    Close,
    Uninstall,
    Io { code: u32, input: Seq<u8>, form: ReplyForm },
}

impl Command {
    /// The exchange that sends the four bytes of `input` under `code` and
    /// expects an 8-byte number back.
    pub open spec fn scalar(code: u32, input: u32) -> Command {
        Command::Io { code, input: le_bytes(input as nat, 4), form: ReplyForm::Scalar }
    }

    /// The exchange that sends `input` under `code` and takes the answer as
    /// bytes.
    pub open spec fn record(code: u32, input: Seq<u8>) -> Command {
        Command::Io { code, input, form: ReplyForm::Record }
    }

    /// What stays in flight once the command has started.
    pub open spec fn pending(self) -> Pending {
        match self {
            Command::Install => Pending::Install,
            Command::Open => Pending::Open,
            Command::Close => Pending::Close,
            Command::Uninstall => Pending::Uninstall,
            Command::Io { code, input, form } => Pending::Io { code, form },
        }
    }
}

/// Which operation an error belongs to.
#[derive(Clone, Copy, Debug, PartialEq, Eq)]
pub enum ErrorKind {
    /// Registering the service failed or was not allowed.
    Install,
    /// Starting the service or getting its handle failed or was not allowed.
    Open,
    /// Giving the handle back failed or was not allowed.
    Close,
    /// Stopping or removing the service failed or was not allowed.
    Uninstall,
    /// An exchange under control code `code` failed or was not allowed.
    Io { code: u32 },
    /// A reply came in while no operation was in flight.
    Unsolicited,
}

impl Pending {
    /// The command that puts this operation in flight.  `input` is what an
    /// exchange sends; the lifecycle operations send nothing.
    pub open spec fn command(self, input: Seq<u8>) -> Command {
        match self {
            Pending::Install => Command::Install,
            Pending::Open => Command::Open,
            Pending::Close => Command::Close,
            Pending::Uninstall => Command::Uninstall,
            Pending::Io { code, form } => Command::Io { code, input, form },
        }
    }

    /// The kind of error that a failure of this operation is reported as.
    pub open spec fn error_kind(self) -> ErrorKind {
        match self {
            Pending::Install => ErrorKind::Install,
            Pending::Open => ErrorKind::Open,
            Pending::Close => ErrorKind::Close,
            Pending::Uninstall => ErrorKind::Uninstall,
            Pending::Io { code, form } => ErrorKind::Io { code },
        }
    }

    /// The kind of error that a failure of this operation is reported as.
    #[verifier::when_used_as_spec(error_kind)]
    pub fn kind(self) -> (kind: ErrorKind)
        ensures
            kind == self.error_kind(),
    {
        match self {
            Pending::Install => ErrorKind::Install,
            Pending::Open => ErrorKind::Open,
            Pending::Close => ErrorKind::Close,
            Pending::Uninstall => ErrorKind::Uninstall,
            Pending::Io { code, form } => ErrorKind::Io { code },
        }
    }
}

/// A [`crate::channel::ChannelError`] as mathematical values.
pub struct ErrorModel {
    pub kind: ErrorKind,
    pub reason: Seq<char>,
}

/// A [`crate::channel::Completion`] as mathematical values.
pub enum CompletionModel {
    Done,
    Scalar(u64),
    Record(Seq<u8>),
}

/// Why an operation cannot start while another waits for its reply.
pub open spec fn reason_busy() -> Seq<char> {
    "another request is in flight"@
}

/// Why `install` cannot start on a registered service.
pub open spec fn reason_installed() -> Seq<char> {
    "service is already installed"@
}

/// Why `open` cannot start without a registered service.
pub open spec fn reason_not_installed() -> Seq<char> {
    "service is not installed"@
}

/// Why `open` cannot start on an open channel.
pub open spec fn reason_open() -> Seq<char> {
    "channel is already open"@
}

/// Why `close` and the exchanges cannot start on a channel that is not open.
pub open spec fn reason_not_open() -> Seq<char> {
    "channel is not open"@
}

/// Why a reply of the wrong shape fails the operation in flight.
pub open spec fn reason_unexpected() -> Seq<char> {
    "unexpected reply from the host"@
}

/// Why a scalar exchange fails on an answer that is not eight bytes long.
pub open spec fn reason_width() -> Seq<char> {
    "reply is not an 8-byte value"@
}

/// Why a reply is turned away when nothing is in flight.
pub open spec fn reason_unsolicited() -> Seq<char> {
    "no request is in flight"@
}

/// Width in bytes of the answer to a scalar exchange.
pub const SCALAR_REPLY_LEN: usize = 8;

/// A channel as mathematical values.
pub struct ChannelModel {
    pub descriptor: DescriptorModel,
    pub state: ChannelState,
    pub pending: Option<Pending>,
}

impl ChannelModel {
    /// The channel right after construction.
    pub open spec fn initial(descriptor: DescriptorModel) -> Self {
        ChannelModel { descriptor, state: ChannelState::Uninstalled, pending: None }
    }

    /// Why the state does not allow `operation` to start, if it does not.
    pub open spec fn objection(self, operation: Pending) -> Option<Seq<char>> {
        match operation {
            Pending::Install => if self.state is Uninstalled {
                None
            } else {
                Some(reason_installed())
            },
            Pending::Open => match self.state {
                ChannelState::Uninstalled => Some(reason_not_installed()),
                ChannelState::Opened { handle } => Some(reason_open()),
                _ => None,
            },
            Pending::Close => if self.state is Opened {
                None
            } else {
                Some(reason_not_open())
            },
            Pending::Uninstall => None,
            Pending::Io { code, form } => if self.state is Opened {
                None
            } else {
                Some(reason_not_open())
            },
        }
    }

    /// Why `operation` cannot start now, if it cannot: something else is in
    /// flight, or the state objects.
    pub open spec fn refusal(self, operation: Pending) -> Option<Seq<char>> {
        if self.pending is Some {
            Some(reason_busy())
        } else {
            self.objection(operation)
        }
    }

    /// The call that carries `command` out.  Meaningful where the state does
    /// not object to the command.
    pub open spec fn request(self, command: Command) -> RequestModel {
        match command {
            Command::Install => RequestModel::RegisterAndStage {
                device_id: self.descriptor.device_id,
                device_type: self.descriptor.device_type,
                binary: self.descriptor.binary,
            },
            Command::Open => RequestModel::StartAndOpen { device_id: self.descriptor.device_id },
            Command::Close => RequestModel::ReleaseHandle { handle: self.state->handle },
            Command::Uninstall => RequestModel::StopAndDeregister {
                device_id: self.descriptor.device_id,
            },
            Command::Io { code, input, form } => RequestModel::SendControl {
                handle: self.state->handle,
                code,
                input,
            },
        }
    }

    /// Starts `command`: the channel afterwards, and either the call to carry
    /// out or the error that turns the command away.  A command that is
    /// turned away changes nothing.
    pub open spec fn begin(self, command: Command) -> (ChannelModel, Result<
        RequestModel,
        ErrorModel,
    >) {
        match self.refusal(command.pending()) {
            Some(reason) => (
                self,
                Err(ErrorModel { kind: command.pending().error_kind(), reason }),
            ),
            None => (
                ChannelModel { pending: Some(command.pending()), ..self },
                Ok(self.request(command)),
            ),
        }
    }

    /// Finishes the operation in flight with `reply`: the channel afterwards
    /// and what the caller of the operation gets.
    pub open spec fn complete(self, reply: ReplyModel) -> (ChannelModel, Result<
        CompletionModel,
        ErrorModel,
    >) {
        match self.pending {
            None => (
                self,
                Err(ErrorModel { kind: ErrorKind::Unsolicited, reason: reason_unsolicited() }),
            ),
            Some(operation) => (
                ChannelModel {
                    state: state_after(self.state, operation, reply),
                    pending: None,
                    ..self
                },
                outcome(operation, reply),
            ),
        }
    }

    /// The operation in flight, if there is one, is one that the state
    /// allowed to start; and the descriptor is valid.
    pub open spec fn consistent(self) -> bool {
        &&& self.descriptor.valid()
        &&& self.pending matches Some(operation) ==> self.objection(operation) is None
    }
}

/// The state that `operation`, started in `state`, leaves behind when the
/// host answered `reply`.
///
/// `install`, `open` and `uninstall` move only when the host reports
/// success.  `close` always leaves the channel closed: the handle is dropped
/// whether or not the host could release it.  An exchange never moves the
/// state.
pub open spec fn state_after(
    state: ChannelState,
    operation: Pending,
    reply: ReplyModel,
) -> ChannelState {
    match operation {
        Pending::Install => if reply is Done {
            ChannelState::Installed
        } else {
            state
        },
        Pending::Open => match reply {
            ReplyModel::Handle(handle) => ChannelState::Opened { handle },
            _ => state,
        },
        Pending::Close => ChannelState::Closed,
        Pending::Uninstall => if reply is Done {
            ChannelState::Uninstalled
        } else {
            state
        },
        Pending::Io { code, form } => state,
    }
}

/// What the caller of `operation` gets when the host answered `reply`.
pub open spec fn outcome(operation: Pending, reply: ReplyModel) -> Result<
    CompletionModel,
    ErrorModel,
> {
    let failed = |reason: Seq<char>| ErrorModel { kind: operation.error_kind(), reason };
    match (operation, reply) {
        (_, ReplyModel::Failed(reason)) => Err(failed(reason)),
        (Pending::Install, ReplyModel::Done) => Ok(CompletionModel::Done),
        (Pending::Open, ReplyModel::Handle(handle)) => Ok(CompletionModel::Done),
        (Pending::Close, ReplyModel::Done) => Ok(CompletionModel::Done),
        (Pending::Uninstall, ReplyModel::Done) => Ok(CompletionModel::Done),
        (Pending::Io { code, form: ReplyForm::Scalar }, ReplyModel::Output(bytes)) => {
            if bytes.len() == SCALAR_REPLY_LEN {
                Ok(CompletionModel::Scalar(le_value(bytes) as u64))
            } else {
                Err(failed(reason_width()))
            }
        },
        (Pending::Io { code, form: ReplyForm::Record }, ReplyModel::Output(bytes)) => Ok(
            CompletionModel::Record(bytes),
        ),
        _ => Err(failed(reason_unexpected())),
    }
}

/// One thing that happens to a channel: an operation is asked for, or the
/// host answers.
pub enum Event {
    Start(Command),
    Reply(ReplyModel),
}

impl ChannelModel {
    /// The channel after `event`.
    pub open spec fn step(self, event: Event) -> ChannelModel {
        match event {
            Event::Start(command) => self.begin(command).0,
            Event::Reply(reply) => self.complete(reply).0,
        }
    }

    /// The channel after all of `events`, in order.
    pub open spec fn run(self, events: Seq<Event>) -> ChannelModel
        decreases events.len(),
    {
        if events.len() == 0 {
            self
        } else {
            self.run(events.drop_last()).step(events.last())
        }
    }

    /// Nothing is registered and nothing is on its way to change that.
    pub open spec fn unregistered(self) -> bool {
        &&& self.state is Uninstalled
        &&& self.pending is None || self.pending == Some(Pending::Uninstall)
    }

    /// The service is registered and no removal is in flight.
    pub open spec fn registered(self) -> bool {
        &&& !(self.state is Uninstalled)
        &&& self.pending != Some(Pending::Uninstall)
    }

    /// The channel is not open, and neither an `open` nor an exchange is in
    /// flight.
    pub open spec fn silent(self) -> bool {
        &&& !(self.state is Opened)
        &&& self.pending != Some(Pending::Open)
        &&& !(self.pending matches Some(Pending::Io { code, form }))
    }
}

/// What holds of a channel before a run still holds after it, if every event
/// of the run keeps it.
proof fn lemma_run_preserves(
    start: ChannelModel,
    events: Seq<Event>,
    holds: spec_fn(ChannelModel) -> bool,
)
    requires
        holds(start),
        forall|channel: ChannelModel, i: int|
            0 <= i < events.len() && holds(channel) ==> #[trigger] holds(
                channel.step(events[i]),
            ),
    ensures
        holds(start.run(events)),
    decreases events.len(),
{
    if events.len() > 0 {
        let earlier = events.drop_last();
        assert forall|channel: ChannelModel, i: int|
            0 <= i < earlier.len() && holds(channel) implies #[trigger] holds(
            channel.step(earlier[i]),
        ) by {
            assert(earlier[i] == events[i]);
        }
        lemma_run_preserves(start, earlier, holds);
        assert(events.last() == events[events.len() - 1]);
    }
}

/// Every operation preserves consistency, whatever the host answers.
pub proof fn lemma_step_consistent(channel: ChannelModel, event: Event)
    requires
        channel.consistent(),
    ensures
        channel.step(event).consistent(),
{
}

/// `open` needs `install` first.  On a fresh channel, as long as no
/// `install` is started, the service stays unregistered whatever else is
/// asked for and whatever the host answers: there is no handle, and `open`
/// is turned away with an `Open` error and changes nothing.
pub proof fn lemma_open_needs_install(descriptor: DescriptorModel, events: Seq<Event>)
    requires
        forall|i: int| 0 <= i < events.len() ==> events[i] != Event::Start(Command::Install),
    ensures
        ({
            let channel = ChannelModel::initial(descriptor).run(events);
            &&& channel.state is Uninstalled
            &&& channel.begin(Command::Open).0 == channel
            &&& channel.begin(Command::Open).1 matches Err(error) && error.kind == ErrorKind::Open
        }),
{
    lemma_run_preserves(
        ChannelModel::initial(descriptor),
        events,
        |channel: ChannelModel| channel.unregistered(),
    );
}

/// `install` does not go through twice.  Once an `install` has gone through,
/// as long as no `uninstall` is started, every further `install` is turned
/// away with an `Install` error and changes nothing, whatever else is asked
/// for in between and whatever the host answers.
pub proof fn lemma_install_once(before: ChannelModel, events: Seq<Event>)
    requires
        before.pending == Some(Pending::Install),
        forall|i: int| 0 <= i < events.len() ==> events[i] != Event::Start(Command::Uninstall),
    ensures
        ({
            let installed = before.complete(ReplyModel::Done);
            let channel = installed.0.run(events);
            &&& installed.1 == Ok::<CompletionModel, ErrorModel>(CompletionModel::Done)
            &&& installed.0.state is Installed
            &&& channel.begin(Command::Install).0 == channel
            &&& channel.begin(Command::Install).1 matches Err(error) && error.kind
                == ErrorKind::Install
        }),
{
    lemma_run_preserves(
        before.complete(ReplyModel::Done).0,
        events,
        |channel: ChannelModel| channel.registered(),
    );
}

/// A closed channel stays silent.  Once a `close` has been answered, with
/// success or not, the channel is closed; and as long as no `open` is
/// started, it is not open, every exchange is turned away with an `Io` error
/// and changes nothing, and no reply is taken for the answer to an exchange.
pub proof fn lemma_no_io_after_close(before: ChannelModel, answer: ReplyModel, events: Seq<Event>)
    requires
        before.pending == Some(Pending::Close),
        forall|i: int| 0 <= i < events.len() ==> events[i] != Event::Start(Command::Open),
    ensures
        ({
            let closed = before.complete(answer).0;
            let channel = closed.run(events);
            &&& closed.state is Closed
            &&& closed.pending is None
            &&& !(channel.state is Opened)
            &&& forall|code: u32, input: Seq<u8>, form: ReplyForm|
                {
                    let started = #[trigger] channel.begin(Command::Io { code, input, form });
                    &&& started.0 == channel
                    &&& started.1 matches Err(error) && error.kind == ErrorKind::Io { code }
                }
            &&& forall|reply: ReplyModel|
                !(#[trigger] channel.complete(reply).1 matches Ok(completion) && completion
                    != CompletionModel::Done)
        }),
{
    lemma_run_preserves(
        before.complete(answer).0,
        events,
        |channel: ChannelModel| channel.silent(),
    );
}

} // verus!
