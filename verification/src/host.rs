//! The five primitives of the service-control subsystem, as data.
//!
//! The channel does not call the operating system.  It describes the call it
//! needs as a [`HostRequest`]; whoever owns the channel carries the call out
//! and reports what happened as a [`HostReply`].

use vstd::prelude::*;

verus! {

/// Token of a live communication channel to the running service, as the
/// operating system handed it out.
#[derive(Clone, Copy, Debug, PartialEq, Eq)]
pub struct ServiceHandle {
    pub raw: u64,
}

/// One call into the service-control subsystem.
#[derive(Debug, PartialEq, Eq)]
pub enum HostRequest {
    /// Register a service under `device_id` and stage `binary` with the loader.
    RegisterAndStage { device_id: String, device_type: u32, binary: Vec<u8> },
    /// Start the service named `device_id` and open the device for exclusive use.
    StartAndOpen { device_id: String },
    /// Give `handle` back.
    ReleaseHandle { handle: ServiceHandle },
    /// Stop the service named `device_id` and delete its registration.
    StopAndDeregister { device_id: String },
    /// Send control code `code` with `input` through `handle` and wait for
    /// the answer.
    SendControl { handle: ServiceHandle, code: u32, input: Vec<u8> },
}

/// A [`HostRequest`] as mathematical values.
pub enum RequestModel {
    RegisterAndStage { device_id: Seq<char>, device_type: u32, binary: Seq<u8> },
    StartAndOpen { device_id: Seq<char> },
    ReleaseHandle { handle: ServiceHandle },
    StopAndDeregister { device_id: Seq<char> },
    SendControl { handle: ServiceHandle, code: u32, input: Seq<u8> },
}

impl View for HostRequest {
    type V = RequestModel;

    open spec fn view(&self) -> RequestModel {
        match *self {
            HostRequest::RegisterAndStage { device_id, device_type, binary } => {
                RequestModel::RegisterAndStage {
                    device_id: device_id@,
                    device_type,
                    binary: binary@,
                }
            },
            HostRequest::StartAndOpen { device_id } => RequestModel::StartAndOpen {
                device_id: device_id@,
            },
            HostRequest::ReleaseHandle { handle } => RequestModel::ReleaseHandle { handle },
            HostRequest::StopAndDeregister { device_id } => RequestModel::StopAndDeregister {
                device_id: device_id@,
            },
            HostRequest::SendControl { handle, code, input } => RequestModel::SendControl {
                handle,
                code,
                input: input@,
            },
        }
    }
}

/// What the service-control subsystem answered.
#[derive(Debug, PartialEq, Eq)]
pub enum HostReply {
    /// A registration, release or removal went through.
    Done,
    /// The service runs and this is the handle to it.
    Handle(ServiceHandle),
    /// The privileged component answered a control request with these bytes.
    Output(Vec<u8>),
    /// The call failed; the text says why.
    Failed(String),
}

/// A [`HostReply`] as mathematical values.
pub enum ReplyModel {
    Done,
    Handle(ServiceHandle),
    Output(Seq<u8>),
    Failed(Seq<char>),
}

impl View for HostReply {
    type V = ReplyModel;

    open spec fn view(&self) -> ReplyModel {
        match *self {
            HostReply::Done => ReplyModel::Done,
            HostReply::Handle(handle) => ReplyModel::Handle(handle),
            HostReply::Output(bytes) => ReplyModel::Output(bytes@),
            HostReply::Failed(reason) => ReplyModel::Failed(reason@),
        }
    }
}

} // verus!
