//! What is asked of Windows when pipes are made and opened, and when handles are made.

use vstd::prelude::*;

verus! {

/// The kind of a pipe.
#[derive(Clone, Copy, PartialEq, Eq, Structural, Debug)]
pub struct PipeType {
    /// What is written to the pipe at once is a message.
    pub message: bool,
    /// What is read from the pipe at once is a message.
    pub message_read_mode: bool,
    /// Clients on other machines are turned away.
    pub reject_remote_clients: bool,
}

/// What is asked for when a pipe is made.
#[derive(Clone, Copy, PartialEq, Eq, Structural, Debug)]
pub struct PipeRequest {
    pub pipe_type: PipeType,
    /// Both sides read and write.
    pub duplex: bool,
    /// Calls do not wait for what they start.
    pub overlapped: bool,
    /// The number of pipes that there may be under the name.
    pub instances: u32,
    /// The pipe has the security descriptor that lets everybody in, and not the default one.
    pub everybody: bool,
}

/// What is asked for when a pipe that exists is opened by its name.
#[derive(Clone, Copy, PartialEq, Eq, Structural, Debug)]
pub struct OpenRequest {
    pub read: bool,
    pub write: bool,
    /// Others may open the pipe too while it is open.
    pub shared: bool,
    /// Only a pipe that exists is opened.
    pub existing: bool,
    /// The server can find out who the client is, but not act in its name.
    pub identification: bool,
    /// Calls do not wait for what they start.
    pub overlapped: bool,
    /// The security descriptor that lets everybody in is handed over, and not none.
    pub everybody: bool,
}

/// The rights that come with a handle.
#[derive(Clone, Copy, PartialEq, Eq, Structural, Debug)]
pub enum HandleAccess {
    /// Those of the handle that it is made from.
    Same,
    /// The right to duplicate handles into the process and out of it, and no other.
    DuplicateHandles,
}

/// What is asked for when a handle is made.
#[derive(Clone, Copy, PartialEq, Eq, Structural, Debug)]
pub struct HandleRequest {
    pub access: HandleAccess,
    /// A child process inherits the handle.
    pub inheritable: bool,
}

/// The kind of a pipe that carries a channel.
pub open spec fn spec_message_pipe() -> PipeType {
    PipeType { message: true, message_read_mode: true, reject_remote_clients: true }
}

/// The kind of a pipe that carries a channel.
#[verifier::when_used_as_spec(spec_message_pipe)]
pub fn message_pipe() -> (pipe_type: PipeType)
    ensures
        pipe_type == spec_message_pipe(),
{
    PipeType { message: true, message_read_mode: true, reject_remote_clients: true }
}

/// What is asked for when a pipe of this kind is made.
pub open spec fn spec_pipe_request(pipe_type: PipeType, everybody: bool) -> PipeRequest {
    PipeRequest { pipe_type, duplex: true, overlapped: true, instances: 1, everybody }
}

/// What is asked for when a pipe of this kind is made.
#[verifier::when_used_as_spec(spec_pipe_request)]
pub fn pipe_request(pipe_type: PipeType, everybody: bool) -> (request: PipeRequest)
    ensures
        request == spec_pipe_request(pipe_type, everybody),
{
    PipeRequest { pipe_type, duplex: true, overlapped: true, instances: 1, everybody }
}

/// What is asked for when a pipe is opened.
pub open spec fn spec_open_request(everybody: bool) -> OpenRequest {
    OpenRequest {
        read: true,
        write: true,
        shared: false,
        existing: true,
        identification: true,
        overlapped: true,
        everybody,
    }
}

/// What is asked for when a pipe is opened.
#[verifier::when_used_as_spec(spec_open_request)]
pub fn open_request(everybody: bool) -> (request: OpenRequest)
    ensures
        request == spec_open_request(everybody),
{
    OpenRequest {
        read: true,
        write: true,
        shared: false,
        existing: true,
        identification: true,
        overlapped: true,
        everybody,
    }
}

/// What is asked for when a handle to a process is made: handles can be sent to the process by it.
pub open spec fn spec_process_request(inheritable: bool) -> HandleRequest {
    HandleRequest { access: HandleAccess::DuplicateHandles, inheritable }
}

/// What is asked for when a handle to a process is made: handles can be sent to the process by it.
#[verifier::when_used_as_spec(spec_process_request)]
pub fn process_request(inheritable: bool) -> (request: HandleRequest)
    ensures
        request == spec_process_request(inheritable),
{
    HandleRequest { access: HandleAccess::DuplicateHandles, inheritable }
}

/// What is asked for when a child is to inherit a pipe.
pub open spec fn spec_inheritance_request() -> HandleRequest {
    HandleRequest { access: HandleAccess::Same, inheritable: true }
}

/// What is asked for when a child is to inherit a pipe.
#[verifier::when_used_as_spec(spec_inheritance_request)]
pub fn inheritance_request() -> (request: HandleRequest)
    ensures
        request == spec_inheritance_request(),
{
    HandleRequest { access: HandleAccess::Same, inheritable: true }
}

} // verus!
