//! Channels over named pipes that can be handed on to a child process until they are used.
//!
//! A pipe that an event loop watches breaks when it is sent to another process. So a pipe is given to the event
//! loop when it is first read from or written to, and until then its channel can be handed to a child process.

use crate::error::{Error, Fault};
use crate::windows::handles::{HandleTarget, WinHandle};
use crate::windows::request::{inheritance_request, message_pipe, process_request, HandleRequest, PipeType};
use vstd::prelude::*;

verus! {

/// A pipe. `U` is a pipe that no event loop watches, and `G` is one that an event loop does.
#[derive(Debug)]
pub enum NamedPipe<U, G> {
    Unregistered(U),
    Registered(G),
}

/// Where the ends of a channel are, as far as they are not in this process.
#[derive(PartialEq, Eq, Structural, Debug)]
pub enum HandleTargetState {
    /// Both ends are here.
    Unsent,
    /// The server's end went to this process.
    ServerSentTo(WinHandle),
    /// The client's end went to this process.
    ClientSentTo(WinHandle),
}

/// A channel of packets. Where its ends are is known to both of them.
#[derive(Debug)]
pub struct MessageChannel<U, G> {
    pub pipe: NamedPipe<U, G>,
    pub server: bool,
}

/// What a child process needs to know to take part in a channel.
#[derive(PartialEq, Eq, Structural, Debug)]
pub struct ChildMessageChannel {
    pub channel_handle: WinHandle,
    pub remote_process_handle: WinHandle,
    pub server: bool,
}

impl<U, G> NamedPipe<U, G> {
    /// The pipe as the event loop knows it. `register` has an event loop watch a pipe, which happens once.
    pub fn ensure_registered<F: FnOnce(&U) -> Result<G, Error>>(&mut self, register: F) -> (registered: Result<
        &mut G,
        Error,
    >)
        requires
            *old(self) matches NamedPipe::Unregistered(pipe) ==> register.requires((&pipe,)),
        ensures
            match *old(self) {
                NamedPipe::Registered(pipe) => {
                    registered matches Ok(r) && *r == pipe && *final(self) == NamedPipe::<U, G>::Registered(*final(r))
                },
                NamedPipe::Unregistered(pipe) => match registered {
                    Ok(r) => register.ensures((&pipe,), Ok(*r)) && *final(self) == NamedPipe::<U, G>::Registered(
                        *final(r),
                    ),
                    Err(e) => register.ensures((&pipe,), Err(e)) && *final(self) == *old(self),
                },
            },
    {
        let registered = match self {
            NamedPipe::Registered(_) => None,
            NamedPipe::Unregistered(pipe) => match register(pipe) {
                Ok(registered) => Some(registered),
                Err(e) => return Err(e),
            },
        };
        match registered {
            Some(pipe) => {
                *self = NamedPipe::Registered(pipe);
            },
            None => {},
        }
        match self {
            NamedPipe::Registered(pipe) => Ok(pipe),
            NamedPipe::Unregistered(_) => Err(Error::Fault(Fault::NotReady)),
        }
    }
}

impl<U, G> MessageChannel<U, G> {
    /// Both ends of a channel within this process, and where they are. `make_pipes` makes a pair of connected pipes of
    /// a kind.
    pub fn pair<M: FnOnce(PipeType) -> Result<(U, U), Error>>(make_pipes: M) -> (pair: Result<
        (MessageChannel<U, G>, MessageChannel<U, G>, HandleTargetState),
        Error,
    >)
        requires
            make_pipes.requires((message_pipe(),)),
        ensures
            exists|pipes: Result<(U, U), Error>| #[trigger]
                make_pipes.ensures((message_pipe(),), pipes) && pair == (match pipes {
                    Ok((server, client)) => Ok::<
                        (MessageChannel<U, G>, MessageChannel<U, G>, HandleTargetState),
                        Error,
                    >(
                        (
                            MessageChannel { pipe: NamedPipe::Unregistered(server), server: true },
                            MessageChannel { pipe: NamedPipe::Unregistered(client), server: false },
                            HandleTargetState::Unsent,
                        ),
                    ),
                    Err(e) => Err(e),
                }),
    {
        let pipes = make_pipes(message_pipe());
        assert(make_pipes.ensures((message_pipe(),), pipes));
        match pipes {
            Ok((server, client)) => Ok(
                (
                    MessageChannel { pipe: NamedPipe::Unregistered(server), server: true },
                    MessageChannel { pipe: NamedPipe::Unregistered(client), server: false },
                    HandleTargetState::Unsent,
                ),
            ),
            Err(e) => Err(e),
        }
    }

    /// This is what a child needs to know to take over this end: an inheritable handle to its pipe, one to this
    /// process, and which end it is.
    pub open spec fn handed_on<P, B>(&self, process_handle: P, inheritable: B, sent: ChildMessageChannel) -> bool where
        P: FnOnce(HandleRequest) -> Result<WinHandle, Error>,
        B: FnOnce(&U, HandleRequest) -> Result<WinHandle, Error>,
     {
        &&& sent.server == self.server
        &&& process_handle.ensures((process_request(true),), Ok(sent.remote_process_handle))
        &&& self.pipe matches NamedPipe::Unregistered(pipe)
            && inheritable.ensures((&pipe, inheritance_request()), Ok(sent.channel_handle))
    }

    /// Hands this end of a channel, of which both ends are in this process, to a child process.
    ///
    /// `process_handle` makes a handle to this process as it is asked for, `inheritable` makes one to a pipe,
    /// `transmit_and_launch` launches the child and has it told about its end of the channel, and
    /// `child_handle` makes a handle to the child. The first call that fails decides. A channel that was used
    /// already cannot be handed on.
    pub fn send_to_child<T, P, B, L, H>(
        self,
        state: &mut HandleTargetState,
        process_handle: P,
        inheritable: B,
        transmit_and_launch: L,
        child_handle: H,
    ) -> (child: Result<T, Error>) where
        P: FnOnce(HandleRequest) -> Result<WinHandle, Error>,
        B: FnOnce(&U, HandleRequest) -> Result<WinHandle, Error>,
        L: FnOnce(&ChildMessageChannel) -> Result<T, Error>,
        H: FnOnce(&T) -> Result<WinHandle, Error>,

        requires
            *old(state) == HandleTargetState::Unsent,
            process_handle.requires((process_request(true),)),
            forall|handle: Result<WinHandle, Error>| #[trigger]
                process_handle.ensures((process_request(true),), handle) && handle is Ok && self.pipe is Unregistered
                    ==> inheritable.requires((&self.pipe->Unregistered_0, inheritance_request())),
            forall|sent: &ChildMessageChannel|
                self.handed_on(process_handle, inheritable, *sent) ==> #[trigger] transmit_and_launch.requires(
                    (sent,),
                ),
            forall|sent: &ChildMessageChannel, child: T| #[trigger]
                transmit_and_launch.ensures((sent,), Ok(child)) ==> child_handle.requires((&child,)),
        ensures
            match child {
                Ok(c) => {
                    &&& exists|sent: &ChildMessageChannel| #[trigger]
                        transmit_and_launch.ensures((sent,), Ok(c)) && self.handed_on(
                            process_handle,
                            inheritable,
                            *sent,
                        )
                    &&& match *final(state) {
                        HandleTargetState::Unsent => false,
                        HandleTargetState::ServerSentTo(remote) => self.server && child_handle.ensures(
                            (&c,),
                            Ok(remote),
                        ),
                        HandleTargetState::ClientSentTo(remote) => !self.server && child_handle.ensures(
                            (&c,),
                            Ok(remote),
                        ),
                    }
                },
                Err(e) => {
                    &&& *final(state) == HandleTargetState::Unsent
                    &&& {
                        ||| process_handle.ensures((process_request(true),), Err(e))
                        ||| self.pipe is Registered && e == Error::Fault(Fault::ChannelInUse)
                        ||| self.pipe matches NamedPipe::Unregistered(pipe)
                            && inheritable.ensures((&pipe, inheritance_request()), Err(e))
                        ||| exists|sent: &ChildMessageChannel| #[trigger]
                            transmit_and_launch.ensures((sent,), Err(e)) && self.handed_on(
                                process_handle,
                                inheritable,
                                *sent,
                            )
                        ||| exists|sent: &ChildMessageChannel, c: T| #[trigger]
                            transmit_and_launch.ensures((sent,), Ok(c)) && self.handed_on(
                                process_handle,
                                inheritable,
                                *sent,
                            ) && child_handle.ensures((&c,), Err(e))
                    }
                },
            },
    {
        let remote_process_handle = match process_handle(process_request(true)) {
            Ok(handle) => handle,
            Err(e) => return Err(e),
        };
        let channel_handle = match &self.pipe {
            NamedPipe::Unregistered(pipe) => match inheritable(pipe, inheritance_request()) {
                Ok(handle) => handle,
                Err(e) => return Err(e),
            },
            NamedPipe::Registered(_) => return Err(Error::Fault(Fault::ChannelInUse)),
        };
        let to_be_sent = ChildMessageChannel { channel_handle, remote_process_handle, server: self.server };
        let child = match transmit_and_launch(&to_be_sent) {
            Ok(child) => child,
            Err(e) => return Err(e),
        };
        assert(transmit_and_launch.ensures((&to_be_sent,), Ok(child)));
        let remote = match child_handle(&child) {
            Ok(handle) => handle,
            Err(e) => return Err(e),
        };
        if self.server {
            *state = HandleTargetState::ServerSentTo(remote);
        } else {
            *state = HandleTargetState::ClientSentTo(remote);
        }
        Ok(child)
    }

    /// An end of a channel that is still here: what is known of where the ends are does not say that this one
    /// went elsewhere.
    pub open spec fn is_here(&self, state: HandleTargetState) -> bool {
        match state {
            HandleTargetState::Unsent => true,
            HandleTargetState::ServerSentTo(_) => !self.server,
            HandleTargetState::ClientSentTo(_) => self.server,
        }
    }

    /// The process that handles are sent to over the channel.
    pub open spec fn spec_handle_target(&self, state: HandleTargetState) -> HandleTarget<usize> {
        match state {
            HandleTargetState::Unsent => HandleTarget::CurrentProcess,
            HandleTargetState::ServerSentTo(remote) => HandleTarget::RemoteProcess(remote.0),
            HandleTargetState::ClientSentTo(remote) => HandleTarget::RemoteProcess(remote.0),
        }
    }

    /// The process that handles are sent to over the channel.
    pub fn handle_target(&self, state: &HandleTargetState) -> (target: HandleTarget<usize>)
        requires
            self.is_here(*state),
        ensures
            target == self.spec_handle_target(*state),
    {
        match state {
            HandleTargetState::Unsent => HandleTarget::CurrentProcess,
            HandleTargetState::ServerSentTo(remote) => HandleTarget::RemoteProcess(remote.0),
            HandleTargetState::ClientSentTo(remote) => HandleTarget::RemoteProcess(remote.0),
        }
    }
}

impl ChildMessageChannel {
    /// Where the ends of the channel are, for the child: the one that it did not get is with its parent.
    pub open spec fn spec_state(&self) -> HandleTargetState {
        if self.server {
            HandleTargetState::ClientSentTo(self.remote_process_handle)
        } else {
            HandleTargetState::ServerSentTo(self.remote_process_handle)
        }
    }

    /// The child's end of the channel, and where the ends are.
    pub fn into_channel<G>(self) -> (channel: Result<(MessageChannel<WinHandle, G>, HandleTargetState), Error>)
        ensures
            channel == Ok::<(MessageChannel<WinHandle, G>, HandleTargetState), Error>(
                (
                    MessageChannel {
                        pipe: NamedPipe::Unregistered(self.channel_handle),
                        server: self.server,
                    },
                    self.spec_state(),
                ),
            ),
    {
        let state = if self.server {
            HandleTargetState::ClientSentTo(self.remote_process_handle)
        } else {
            HandleTargetState::ServerSentTo(self.remote_process_handle)
        };
        Ok(
            (
                MessageChannel { pipe: NamedPipe::Unregistered(self.channel_handle), server: self.server },
                state,
            ),
        )
    }
}

/// Once one end of a channel went to a child, the end that is left sends handles to the child, and the child's
/// end sends them to the parent.
pub proof fn handles_go_to_the_other_end<U, G>(
    left: MessageChannel<U, G>,
    gone: MessageChannel<U, G>,
    state: HandleTargetState,
    child: WinHandle,
    sent: ChildMessageChannel,
    arrived: MessageChannel<WinHandle, G>,
)
    requires
        left.server != gone.server,
        state == (if gone.server {
            HandleTargetState::ServerSentTo(child)
        } else {
            HandleTargetState::ClientSentTo(child)
        }),
        sent.server == gone.server,
        arrived.server == sent.server,
    ensures
        left.is_here(state),
        !gone.is_here(state),
        left.spec_handle_target(state) == HandleTarget::RemoteProcess(child.0),
        arrived.is_here(sent.spec_state()),
        arrived.spec_handle_target(sent.spec_state()) == HandleTarget::RemoteProcess(sent.remote_process_handle.0),
{
}

} // verus!
