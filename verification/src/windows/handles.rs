//! Handles that travel with a message.
//!
//! A handle means something in one process only. To send one, the sender duplicates it into the process at the
//! other end of the channel, and sends what it is called there.

use crate::context::{ContextGuard, Current};
use crate::error::{Error, Fault};
use crate::windows::request::{process_request, HandleRequest};
use vstd::prelude::*;

verus! {

/// A handle that its holder closes when done with it.
#[derive(PartialEq, Eq, Structural, Debug)]
pub struct WinHandle(pub usize);

/// A handle that can be sent over a channel.
#[derive(PartialEq, Eq, Structural, Debug)]
pub struct SendableWinHandle<B>(pub B);

/// A process: a handle to it, and its number.
#[derive(PartialEq, Eq, Structural, Debug)]
pub struct ProcessHandle {
    pub handle: SendableWinHandle<WinHandle>,
    pub id: u32,
}

/// The process that handles are sent to.
#[derive(PartialEq, Eq, Structural, Debug)]
pub enum HandleTarget<H> {
    /// There is none: no handles can be sent.
    Nobody,
    /// This process.
    CurrentProcess,
    /// Another process.
    RemoteProcess(H),
}

/// A process as the other end of a channel sees it: its handle, as a number, and its own number.
#[derive(Clone, Copy, PartialEq, Eq, Structural, Debug)]
pub struct RemoteProcess {
    pub handle: usize,
    pub id: u32,
}

/// Sends the handles of a message.
#[derive(Debug)]
pub struct HandleSender {
    pub target: HandleTarget<RemoteProcess>,
    /// What the handles that were sent are called in the process that they were sent to.
    pub handles: Vec<usize>,
}

/// Receives the handles of a message.
#[derive(Clone, Copy, PartialEq, Eq, Structural, Debug)]
pub struct HandleReceiver;

/// A process, as a request names it.
#[derive(Clone, Copy, PartialEq, Eq, Structural, Debug)]
pub enum ProcessRef {
    Current,
    Handle(usize),
}

/// A handle that is to be closed.
#[derive(Clone, Copy, PartialEq, Eq, Structural, Debug)]
pub enum Closing {
    /// In this process.
    Local(usize),
    /// In another process.
    Remote { process: usize, handle: usize },
}

impl HandleSender {
    /// The process that handles are duplicated into.
    pub open spec fn spec_process(&self) -> Option<ProcessRef> {
        match self.target {
            HandleTarget::Nobody => None,
            HandleTarget::CurrentProcess => Some(ProcessRef::Current),
            HandleTarget::RemoteProcess(remote) => Some(ProcessRef::Handle(remote.handle)),
        }
    }

    /// What is closed where the message was not sent: every handle, where it was sent to.
    pub open spec fn spec_closings(&self) -> Seq<Closing> {
        match self.target {
            HandleTarget::Nobody => Seq::empty(),
            HandleTarget::CurrentProcess => Seq::new(self.handles@.len(), |i: int| Closing::Local(self.handles@[i])),
            HandleTarget::RemoteProcess(remote) => Seq::new(
                self.handles@.len(),
                |i: int| Closing::Remote { process: remote.handle, handle: self.handles@[i] },
            ),
        }
    }

    /// A sender for handles to a process.
    pub fn new(target: HandleTarget<RemoteProcess>) -> (sender: HandleSender)
        ensures
            sender.target == target,
            sender.handles@ == Seq::<usize>::empty(),
    {
        HandleSender { target, handles: Vec::new() }
    }

    /// Sends a handle. `duplicate` duplicates it into a process with the access that it has, and gives what it
    /// is called there.
    pub fn send<F: FnOnce(usize, ProcessRef) -> Result<usize, Error>>(&mut self, handle: usize, duplicate: F) -> (sent:
        Result<usize, Error>)
        requires
            old(self).spec_process() matches Some(process) ==> duplicate.requires((handle, process)),
        ensures
            final(self).target == old(self).target,
            match old(self).spec_process() {
                None => {
                    &&& sent == Err::<usize, Error>(Error::Fault(Fault::HandlesNotConfigured))
                    &&& final(self).handles@ == old(self).handles@
                },
                Some(process) => match sent {
                    Ok(remote) => {
                        &&& duplicate.ensures((handle, process), Ok(remote))
                        &&& final(self).handles@ == old(self).handles@.push(remote)
                    },
                    Err(e) => {
                        &&& duplicate.ensures((handle, process), Err(e))
                        &&& final(self).handles@ == old(self).handles@
                    },
                },
            },
    {
        let process = match &self.target {
            HandleTarget::CurrentProcess => ProcessRef::Current,
            HandleTarget::RemoteProcess(remote) => ProcessRef::Handle(remote.handle),
            HandleTarget::Nobody => return Err(Error::Fault(Fault::HandlesNotConfigured)),
        };
        match duplicate(handle, process) {
            Ok(remote) => {
                self.handles.push(remote);
                Ok(remote)
            },
            Err(e) => Err(e),
        }
    }

    /// The number of the process that handles are sent to, given the number of this process.
    pub fn remote_process_id(&self, current: u32) -> (id: Result<u32, Error>)
        ensures
            id == match self.target {
                HandleTarget::CurrentProcess => Ok::<u32, Error>(current),
                HandleTarget::RemoteProcess(remote) => Ok(remote.id),
                HandleTarget::Nobody => Err(Error::Fault(Fault::HandlesNotConfigured)),
            },
    {
        match &self.target {
            HandleTarget::CurrentProcess => Ok(current),
            HandleTarget::RemoteProcess(remote) => Ok(remote.id),
            HandleTarget::Nobody => Err(Error::Fault(Fault::HandlesNotConfigured)),
        }
    }

    /// Takes note that the message is sent: the handles belong to the receiver now.
    pub fn commit(&mut self)
        ensures
            final(self).target == old(self).target,
            final(self).handles@ == Seq::<usize>::empty(),
    {
        self.handles.clear();
    }

    /// Gives up the sender: says which handles are to be closed. There are none once the message is sent.
    pub fn release(self) -> (closings: Vec<Closing>)
        ensures
            closings@ == self.spec_closings(),
    {
        let mut closings: Vec<Closing> = Vec::new();
        match self.target {
            HandleTarget::CurrentProcess => {
                let mut i: usize = 0;
                while i < self.handles.len()
                    invariant
                        i <= self.handles@.len(),
                        closings@ == Seq::new(i as nat, |k: int| Closing::Local(self.handles@[k])),
                    decreases self.handles@.len() - i,
                {
                    closings.push(Closing::Local(self.handles[i]));
                    i = i + 1;
                    assert(closings@ =~= Seq::new(i as nat, |k: int| Closing::Local(self.handles@[k])));
                }
            },
            HandleTarget::RemoteProcess(remote) => {
                let process: usize = remote.handle;
                let mut i: usize = 0;
                while i < self.handles.len()
                    invariant
                        i <= self.handles@.len(),
                        closings@ == Seq::new(
                            i as nat,
                            |k: int| Closing::Remote { process, handle: self.handles@[k] },
                        ),
                    decreases self.handles@.len() - i,
                {
                    closings.push(Closing::Remote { process, handle: self.handles[i] });
                    i = i + 1;
                    assert(closings@ =~= Seq::new(
                        i as nat,
                        |k: int| Closing::Remote { process, handle: self.handles@[k] },
                    ));
                }
            },
            HandleTarget::Nobody => {},
        }
        closings
    }
}

/// Once a message is sent, none of its handles is closed; until then, each of them is, once.
pub proof fn handles_are_closed_unless_sent(sender: HandleSender)
    ensures
        sender.handles@.len() == 0 ==> sender.spec_closings().len() == 0,
        sender.spec_process() is Some ==> sender.spec_closings().len() == sender.handles@.len(),
        forall|i: int|
            0 <= i < sender.spec_closings().len() ==> (match #[trigger] sender.spec_closings()[i] {
                Closing::Local(handle) => sender.spec_process() == Some(ProcessRef::Current) && handle
                    == sender.handles@[i],
                Closing::Remote { process, handle } => sender.spec_process() == Some(ProcessRef::Handle(process))
                    && handle == sender.handles@[i],
            }),
{
}

impl SendableWinHandle<usize> {
    /// Serializes the handle, with the sender of the current thread. `duplicate` duplicates a handle into a
    /// process.
    pub fn serialize<F: FnOnce(usize, ProcessRef) -> Result<usize, Error>>(
        &self,
        current: &mut Current<HandleSender>,
        duplicate: F,
    ) -> (sent: Result<usize, Error>)
        requires
            old(current).context matches Some(sender) ==> (sender.spec_process() matches Some(process)
                ==> duplicate.requires((self.0, process))),
        ensures
            match old(current).context {
                None => {
                    &&& sent == Err::<usize, Error>(Error::Fault(Fault::SerializeHandleOutsideChannel))
                    &&& final(current).context is None
                },
                Some(before) => {
                    &&& final(current).context matches Some(after) && after.target == before.target && match (
                        before.spec_process(),
                        sent,
                    ) {
                        (None, _) => {
                            &&& sent == Err::<usize, Error>(Error::Fault(Fault::HandlesNotConfigured))
                            &&& after.handles@ == before.handles@
                        },
                        (Some(process), Ok(remote)) => {
                            &&& duplicate.ensures((self.0, process), Ok(remote))
                            &&& after.handles@ == before.handles@.push(remote)
                        },
                        (Some(process), Err(e)) => {
                            &&& duplicate.ensures((self.0, process), Err(e))
                            &&& after.handles@ == before.handles@
                        },
                    }
                },
            },
    {
        match &mut current.context {
            Some(sender) => sender.send(self.0, duplicate),
            None => Err(Error::Fault(Fault::SerializeHandleOutsideChannel)),
        }
    }

    /// Deserializes a handle, with the receiver of the current thread. `handle` is nothing if what was received
    /// cannot be a handle.
    pub fn deserialize(current: &Current<HandleReceiver>, handle: Option<WinHandle>) -> (received: Result<
        SendableWinHandle<WinHandle>,
        Error,
    >)
        ensures
            received == match (current.context, handle) {
                (None, _) => Err::<SendableWinHandle<WinHandle>, Error>(
                    Error::Fault(Fault::DeserializeHandleOutsideChannel),
                ),
                (Some(_), None) => Err(Error::Fault(Fault::InvalidHandle)),
                (Some(_), Some(handle)) => Ok(SendableWinHandle(handle)),
            },
    {
        match &current.context {
            Some(_) => match handle {
                Some(handle) => Ok(SendableWinHandle(handle)),
                None => Err(Error::Fault(Fault::InvalidHandle)),
            },
            None => Err(Error::Fault(Fault::DeserializeHandleOutsideChannel)),
        }
    }
}

/// Sets up the sender and the receiver of the current thread around the serialization and the deserialization
/// of a message.
#[derive(Clone, Copy, PartialEq, Eq, Structural, Debug)]
pub struct ChannelSerializeWrapper;

impl ChannelSerializeWrapper {
    /// Gives the thread a sender for handles to the other end of a channel.
    pub fn before_serialize(current: &mut Current<HandleSender>, target: HandleTarget<RemoteProcess>) -> (guard:
        ContextGuard<HandleSender>)
        ensures
            guard.previous == old(current).context,
            final(current).context matches Some(sender) && sender.target == target && sender.handles@ == Seq::<
                usize,
            >::empty(),
    {
        current.enter(HandleSender::new(target))
    }

    /// Gives the thread a receiver.
    pub fn before_deserialize(current: &mut Current<HandleReceiver>) -> (guard: ContextGuard<HandleReceiver>)
        ensures
            guard.previous == old(current).context,
            final(current).context == Some(HandleReceiver),
    {
        current.enter(HandleReceiver)
    }

    /// Takes note that the message that was serialized is to be sent.
    pub fn commit_serialize(current: &mut Current<HandleSender>)
        requires
            old(current).context is Some,
        ensures
            final(current).context matches Some(sender) && sender.target == old(current).context->0.target
                && sender.handles@ == Seq::<usize>::empty(),
    {
        match &mut current.context {
            Some(sender) => sender.commit(),
            None => {},
        }
    }

    /// Gives the thread back the sender that it had before, and says which handles are to be closed.
    pub fn after_serialize(current: &mut Current<HandleSender>, guard: ContextGuard<HandleSender>) -> (closings: Vec<
        Closing,
    >)
        ensures
            final(current).context == guard.previous,
            closings@ == match old(current).context {
                Some(sender) => sender.spec_closings(),
                None => Seq::<Closing>::empty(),
            },
    {
        let sender = current.context.take();
        current.leave(guard);
        match sender {
            Some(sender) => sender.release(),
            None => Vec::new(),
        }
    }
}

impl ProcessHandle {
    /// The handle of this process, by which handles can be sent to it. `duplicate` duplicates the handle that every
    /// process has of itself.
    pub fn current<F: FnOnce(HandleRequest) -> Result<WinHandle, Error>>(duplicate: F, id: u32) -> (process: Result<
        ProcessHandle,
        Error,
    >)
        requires
            duplicate.requires((process_request(false),)),
        ensures
            match process {
                Ok(p) => p.id == id && duplicate.ensures((process_request(false),), Ok(p.handle.0)),
                Err(e) => duplicate.ensures((process_request(false),), Err(e)),
            },
    {
        match duplicate(process_request(false)) {
            Ok(handle) => Ok(ProcessHandle { handle: SendableWinHandle(handle), id }),
            Err(e) => Err(e),
        }
    }

    /// A copy of the handle, from what came of duplicating it. It stands for the same process.
    pub fn clone(&self, handle: Result<WinHandle, Error>) -> (process: Result<ProcessHandle, Error>)
        ensures
            process == match handle {
                Ok(handle) => Ok::<ProcessHandle, Error>(
                    ProcessHandle { handle: SendableWinHandle(handle), id: self.id },
                ),
                Err(e) => Err(e),
            },
    {
        match handle {
            Ok(handle) => Ok(ProcessHandle { handle: SendableWinHandle(handle), id: self.id }),
            Err(e) => Err(e),
        }
    }

    /// The handle of a child process, from what came of duplicating the handle that its parent has.
    pub fn from_child(handle: Result<WinHandle, Error>, id: u32) -> (process: Result<ProcessHandle, Error>)
        ensures
            process == match handle {
                Ok(handle) => Ok::<ProcessHandle, Error>(ProcessHandle { handle: SendableWinHandle(handle), id }),
                Err(e) => Err(e),
            },
    {
        match handle {
            Ok(handle) => Ok(ProcessHandle { handle: SendableWinHandle(handle), id }),
            Err(e) => Err(e),
        }
    }

    /// The handle of a process, from another handle to it. `id` is the number of the process, or zero with an
    /// error number if it is not to be had, and `duplicate` duplicates the handle.
    pub fn from_windows_handle_raw<F: FnOnce(usize, HandleRequest) -> Result<WinHandle, Error>>(
        handle: usize,
        id: u32,
        errno: i32,
        duplicate: F,
    ) -> (process: Result<ProcessHandle, Error>)
        requires
            id != 0 ==> duplicate.requires((handle, process_request(false))),
        ensures
            id == 0 ==> process == Err::<ProcessHandle, Error>(Error::Os(errno)),
            id != 0 ==> match process {
                Ok(p) => p.id == id && duplicate.ensures((handle, process_request(false)), Ok(p.handle.0)),
                Err(e) => duplicate.ensures((handle, process_request(false)), Err(e)),
            },
    {
        if id == 0 {
            return Err(Error::Os(errno));
        }
        match duplicate(handle, process_request(false)) {
            Ok(handle) => Ok(ProcessHandle { handle: SendableWinHandle(handle), id }),
            Err(e) => Err(e),
        }
    }

    /// The process as the other end of a channel sees it.
    pub fn remote(&self) -> (remote: RemoteProcess)
        ensures
            remote == (RemoteProcess { handle: (self.handle.0).0, id: self.id }),
    {
        RemoteProcess { handle: (self.handle.0).0, id: self.id }
    }
}

} // verus!
