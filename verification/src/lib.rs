//! A client core for the WinRing0 kernel driver that does no I/O.
//!
//! WinRing0 is a kernel driver that reads and writes model-specific
//! registers on behalf of an unprivileged process.  Talking to it takes a
//! strict order of steps against the operating system: register the driver
//! as a service, start it and open its device, exchange control requests,
//! give the handle back, stop and remove the service.  This crate holds that
//! order, the byte layout of the requests and the wording of the errors, and
//! proves them.
//!
//! The crate never calls the operating system.  An operation is started by a
//! method that checks whether the state allows it and returns a
//! [`HostRequest`], the call to carry out.  The caller carries it out and
//! passes what came back, as a [`HostReply`], to `complete`, which finishes
//! the operation.
//!
//! - [`descriptor`]: the metadata of a driver and the builder that checks it.
//! - [`host`]: requests to the operating system and its replies.
//! - [`wire`]: little-endian numbers and record layouts.
//! - [`ioctl`]: the driver's control codes.
//! - [`machine`]: the channel as a state machine over mathematical values,
//!   with the theorems about its runs.
//! - [`channel`]: [`KernelServiceChannel`], the executable state machine.
//! - [`ring0`]: [`WinRing0`], the register helpers on top of a channel.
//! - [`registers`]: a model of the driver's registers and what a client
//!   observes of it.

pub mod channel;
pub mod descriptor;
pub mod host;
pub mod ioctl;
pub mod machine;
pub mod registers;
pub mod ring0;
pub mod wire;

pub use channel::{ChannelError, Completion, KernelServiceChannel};
pub use descriptor::{DriverBuilder, DriverDescriptor, ValidationError};
pub use host::{HostReply, HostRequest, ServiceHandle};
pub use ioctl::IOCTL;
pub use machine::{ChannelState, ErrorKind, Pending, ReplyForm};
pub use ring0::{Outcome, Ring0Error, WinRing0};
