//! Channels of packets over named pipes.

use crate::error::{Error, Fault};
use crate::identity::{hyphenated, is_random_uuid, new_pipe_name};
use crate::windows::handles::{HandleSender, HandleTarget, ProcessHandle, RemoteProcess, SendableWinHandle, WinHandle};
use crate::windows::request::{
    inheritance_request, message_pipe, open_request, pipe_request, process_request, HandleRequest, OpenRequest,
    PipeRequest, PipeType,
};
use vstd::prelude::*;

verus! {

/// The error number which says that an operation goes on.
pub const ERROR_IO_PENDING: i32 = 997;

/// The number of milliseconds that stands for waiting as long as it takes.
pub const INFINITE: u32 = 0xFFFF_FFFF;

/// The number of milliseconds after which a pipe that was connected to has to have noticed.
pub const PIPE_PAIR_TIMEOUT: u32 = 1000;

/// How long to wait: seconds, and nanoseconds on top.
#[derive(Clone, Copy, PartialEq, Eq, Structural, Debug)]
pub struct Timeout {
    pub secs: u64,
    pub nanos: u32,
}

/// The reply to a request to wait for a connection: what it returned, and the error number that goes with it.
#[derive(Clone, Copy, PartialEq, Eq, Structural, Debug)]
pub struct ConnectReply {
    pub returned: i32,
    pub errno: i32,
}

/// A channel of packets. `S` is a pipe that an event loop watches.
#[derive(Debug)]
pub struct MessageChannel<S> {
    pub pipe: S,
    pub server: bool,
    pub target: HandleTarget<ProcessHandle>,
}

/// What a child process needs to know to take part in a channel: the handles that it inherits.
#[derive(PartialEq, Eq, Structural, Debug)]
pub struct ChildMessageChannel {
    pub channel_handle: WinHandle,
    pub remote_process_handle: Option<WinHandle>,
    pub remote_process_id: u32,
}

/// One end of a channel that no event loop watches yet. `H` is a handle.
#[derive(PartialEq, Eq, Structural, Debug)]
pub struct PreMessageChannel<H> {
    pub pipe: SendableWinHandle<H>,
    pub server: bool,
}

/// A pipe with a name that another process can connect to.
#[derive(Debug)]
pub struct NamedMessageChannel<H> {
    pub name: String,
    pub server_pipe: H,
}

/// A name of a pipe that nobody else has.
pub open spec fn pipe_name(name: Seq<char>) -> bool {
    exists|id: u128|
        is_random_uuid(id) && name == "\\\\.\\pipe\\"@ + #[trigger] hyphenated(id)
}

/// What the start of waiting for a connection comes to. It has to go on, since nobody can have connected yet.
pub open spec fn spec_connect_started(reply: ConnectReply) -> Result<(), Error> {
    if reply.returned != 0 || reply.errno != ERROR_IO_PENDING {
        Err(Error::Os(reply.errno))
    } else {
        Ok(())
    }
}

/// What the start of waiting for a connection comes to.
pub fn connect_started(reply: ConnectReply) -> (started: Result<(), Error>)
    ensures
        started == spec_connect_started(reply),
{
    if reply.returned != 0 {
        return Err(Error::Os(reply.errno));
    }
    if reply.errno != ERROR_IO_PENDING {
        return Err(Error::Os(reply.errno));
    }
    Ok(())
}

/// How long to wait, in milliseconds as Windows wants them: the number that is asked for, as far as it fits into
/// 32 bits.
pub fn wait_millis(timeout: Option<Timeout>) -> (millis: u32)
    requires
        timeout matches Some(t) ==> t.secs * 1000 + t.nanos / 1_000_000 <= u64::MAX,
    ensures
        timeout is None ==> millis == INFINITE,
        timeout matches Some(t) ==> millis == (t.secs * 1000 + t.nanos / 1_000_000) % 0x1_0000_0000,
{
    match timeout {
        Some(t) => {
            let millis: u64 = t.secs * 1000 + t.nanos as u64 / 1_000_000;
            assert(millis as u32 == millis % 0x1_0000_0000) by (bit_vector);
            millis as u32
        },
        None => INFINITE,
    }
}

/// The pipe was made under a fresh name.
pub open spec fn created_under_name<H, C: FnOnce(&String, PipeRequest) -> Result<H, Error>>(
    create: C,
    request: PipeRequest,
    pipe: H,
) -> bool {
    exists|name: &String, made: Result<H, Error>| #[trigger]
        create.ensures((name, request), made) && made == Ok::<H, Error>(pipe) && pipe_name(name@)
}

/// A pair of connected pipes was made in this way: a security descriptor that lets everybody in, a pipe under a
/// fresh name that starts to wait for a connection, a connection to it by its name, and the pipe noticing it in
/// time.
pub open spec fn pipes_were_made<H, I, D, C, N, O, W>(
    pipe_type: PipeType,
    init_descriptor: I,
    set_dacl: D,
    create: C,
    connect: N,
    open: O,
    wait: W,
    name: String,
    initialized: Result<(), Error>,
    allowed: Result<(), Error>,
    connecting: ConnectReply,
    waited: Result<(), Error>,
    server: H,
    client: H,
) -> bool where
    I: FnOnce() -> Result<(), Error>,
    D: FnOnce() -> Result<(), Error>,
    C: FnOnce(&String, PipeRequest) -> Result<H, Error>,
    N: FnOnce(&H) -> ConnectReply,
    O: FnOnce(&String, OpenRequest) -> Result<H, Error>,
    W: FnOnce(&H, u32) -> Result<(), Error>,
 {
    &&& pipe_name(name@)
    &&& init_descriptor.ensures((), initialized)
    &&& initialized is Ok
    &&& set_dacl.ensures((), allowed)
    &&& allowed is Ok
    &&& create.ensures((&name, pipe_request(pipe_type, true)), Ok(server))
    &&& connect.ensures((&server,), connecting)
    &&& spec_connect_started(connecting) is Ok
    &&& open.ensures((&name, open_request(true)), Ok(client))
    &&& wait.ensures((&server, PIPE_PAIR_TIMEOUT), waited)
    &&& waited is Ok
}

/// Makes a pair of connected pipes of this kind, the server's and the client's.
///
/// `init_descriptor` makes a security descriptor, `set_dacl` has it let everybody in, `create` makes a pipe with
/// a name as it is asked for, `connect` has the pipe start to wait for a connection, `open` connects to the pipe with
/// a name as it is asked for, and `wait` waits for the pipe to notice that. The first call that fails decides.
pub fn raw_pipe_pair<H, I, D, C, N, O, W>(
    pipe_type: PipeType,
    init_descriptor: I,
    set_dacl: D,
    create: C,
    connect: N,
    open: O,
    wait: W,
) -> (pipes: Result<(H, H), Error>) where
    I: FnOnce() -> Result<(), Error>,
    D: FnOnce() -> Result<(), Error>,
    C: FnOnce(&String, PipeRequest) -> Result<H, Error>,
    N: FnOnce(&H) -> ConnectReply,
    O: FnOnce(&String, OpenRequest) -> Result<H, Error>,
    W: FnOnce(&H, u32) -> Result<(), Error>,

    requires
        init_descriptor.requires(()),
        forall|initialized: Result<(), Error>| #[trigger]
            init_descriptor.ensures((), initialized) && initialized is Ok ==> set_dacl.requires(()),
        forall|allowed: Result<(), Error>, name: &String|
            #![trigger set_dacl.ensures((), allowed), create.requires((name, pipe_request(pipe_type, true)))]
            set_dacl.ensures((), allowed) && allowed is Ok && pipe_name(name@)
                ==> create.requires((name, pipe_request(pipe_type, true))),
        forall|name: &String, created: Result<H, Error>| #[trigger]
            create.ensures((name, pipe_request(pipe_type, true)), created) && created is Ok
                ==> connect.requires((&created->Ok_0,)),
        forall|name: &String, created: Result<H, Error>, connecting: ConnectReply|
            #![trigger
                create.ensures((name, pipe_request(pipe_type, true)), created),
                connect.ensures((&created->Ok_0,), connecting)
            ]
            create.ensures((name, pipe_request(pipe_type, true)), created) && created is Ok
                && connect.ensures((&created->Ok_0,), connecting)
                && spec_connect_started(connecting) is Ok ==> open.requires((name, open_request(true))),
        forall|name: &String, created: Result<H, Error>, opened: Result<H, Error>|
            #![trigger
                create.ensures((name, pipe_request(pipe_type, true)), created),
                open.ensures((name, open_request(true)), opened)
            ]
            create.ensures((name, pipe_request(pipe_type, true)), created) && created is Ok
                && open.ensures((name, open_request(true)), opened) && opened is Ok
                ==> wait.requires((&created->Ok_0, PIPE_PAIR_TIMEOUT)),
    ensures
        match pipes {
            Ok(made) => exists|
                name: String,
                initialized: Result<(), Error>,
                allowed: Result<(), Error>,
                connecting: ConnectReply,
                waited: Result<(), Error>,
                server: H,
                client: H,
            | #[trigger]
                pipes_were_made(
                    pipe_type,
                    init_descriptor,
                    set_dacl,
                    create,
                    connect,
                    open,
                    wait,
                    name,
                    initialized,
                    allowed,
                    connecting,
                    waited,
                    server,
                    client,
                ) && made == (server, client),
            Err(e) => {
                ||| init_descriptor.ensures((), Err(e))
                ||| set_dacl.ensures((), Err(e))
                ||| exists|name: &String| #[trigger]
                    create.ensures((name, pipe_request(pipe_type, true)), Err(e)) && pipe_name(name@)
                ||| exists|pipe: &H, reply: ConnectReply| #[trigger]
                    connect.ensures((pipe,), reply) && spec_connect_started(reply) == Err::<(), Error>(e)
                        && created_under_name(create, pipe_request(pipe_type, true), *pipe)
                ||| exists|name: &String, pipe: H|
                    #![trigger
                        open.ensures((name, open_request(true)), Err(e)),
                        create.ensures((name, pipe_request(pipe_type, true)), Ok(pipe))
                    ]
                    open.ensures((name, open_request(true)), Err(e))
                        && create.ensures((name, pipe_request(pipe_type, true)), Ok(pipe)) && pipe_name(name@)
                ||| exists|pipe: &H| #[trigger]
                    wait.ensures((pipe, PIPE_PAIR_TIMEOUT), Err(e))
                        && created_under_name(create, pipe_request(pipe_type, true), *pipe)
            },
        },
{
    let name = new_pipe_name();
    assert(pipe_name(name@));
    let initialized = init_descriptor();
    match initialized {
        Ok(_) => {},
        Err(e) => return Err(e),
    }
    let allowed = set_dacl();
    match allowed {
        Ok(_) => {},
        Err(e) => return Err(e),
    }
    let server_pipe = match create(&name, pipe_request(pipe_type, true)) {
        Ok(pipe) => pipe,
        Err(e) => return Err(e),
    };
    assert(create.ensures((&name, pipe_request(pipe_type, true)), Ok(server_pipe)));
    let connecting = connect(&server_pipe);
    match connect_started(connecting) {
        Ok(_) => {},
        Err(e) => return Err(e),
    }
    let client_pipe = match open(&name, open_request(true)) {
        Ok(pipe) => pipe,
        Err(e) => return Err(e),
    };
    let waited = wait(&server_pipe, PIPE_PAIR_TIMEOUT);
    match waited {
        Ok(_) => {},
        Err(e) => return Err(e),
    }
    assert(pipes_were_made(
        pipe_type,
        init_descriptor,
        set_dacl,
        create,
        connect,
        open,
        wait,
        name,
        initialized,
        allowed,
        connecting,
        waited,
        server_pipe,
        client_pipe,
    ));
    Ok((server_pipe, client_pipe))
}

/// This is what a child needs to know to have the client's end of a channel: its pipe and a handle to this process,
/// both of which it inherits, and the number of this process.
pub open spec fn child_inherits<H, P, B>(
    process_handle: P,
    inheritable: B,
    client: H,
    process_id: u32,
    sent: ChildMessageChannel,
) -> bool where
    P: FnOnce(HandleRequest) -> Result<WinHandle, Error>,
    B: FnOnce(H, HandleRequest) -> Result<WinHandle, Error>,
 {
    &&& inheritable.ensures((client, inheritance_request()), Ok(sent.channel_handle))
    &&& sent.remote_process_handle matches Some(handle) && process_handle.ensures(
        (process_request(true),),
        Ok(handle),
    )
    &&& sent.remote_process_id == process_id
}

impl<S> MessageChannel<S> {
    /// Both ends of a channel within this process. `make_pipes` makes a pair of connected pipes of a kind, and
    /// `register` has an event loop watch a pipe.
    pub fn pair<H, M, R>(make_pipes: M, register: R) -> (pair: Result<
        (MessageChannel<S>, MessageChannel<S>),
        Error,
    >) where
        M: FnOnce(PipeType) -> Result<(H, H), Error>,
        R: Fn(H) -> Result<S, Error>,

        requires
            make_pipes.requires((message_pipe(),)),
            forall|server: H, client: H| #[trigger]
                make_pipes.ensures((message_pipe(),), Ok((server, client))) ==> {
                    &&& register.requires((server,))
                    &&& forall|pipe: S| #[trigger]
                        register.ensures((server,), Ok(pipe)) ==> register.requires((client,))
                },
        ensures
            exists|pipes: Result<(H, H), Error>| #[trigger]
                make_pipes.ensures((message_pipe(),), pipes) && match (pipes, pair) {
                    (Err(e), _) => pair == Err::<(MessageChannel<S>, MessageChannel<S>), Error>(e),
                    (Ok((server, client)), Ok((a, b))) => {
                        &&& register.ensures((server,), Ok(a.pipe))
                        &&& register.ensures((client,), Ok(b.pipe))
                        &&& a.server && !b.server
                        &&& a.target == HandleTarget::<ProcessHandle>::CurrentProcess
                        &&& b.target == HandleTarget::<ProcessHandle>::CurrentProcess
                    },
                    (Ok((server, client)), Err(e)) => register.ensures((server,), Err(e)) || register.ensures(
                        (client,),
                        Err(e),
                    ),
                },
    {
        let pipes = make_pipes(message_pipe());
        assert(make_pipes.ensures((message_pipe(),), pipes));
        let (server_pipe, client_pipe) = match pipes {
            Ok(pipes) => pipes,
            Err(e) => return Err(e),
        };
        let server = match register(server_pipe) {
            Ok(pipe) => MessageChannel { pipe, server: true, target: HandleTarget::CurrentProcess },
            Err(e) => return Err(e),
        };
        let client = match register(client_pipe) {
            Ok(pipe) => MessageChannel { pipe, server: false, target: HandleTarget::CurrentProcess },
            Err(e) => return Err(e),
        };
        Ok((server, client))
    }

    /// Establishes a channel with a child process, which inherits the client's pipe and a handle to this
    /// process.
    ///
    /// `make_pipes` makes a pair of connected pipes of a kind, `process_handle` makes a handle to this process as it is
    /// asked for, `inheritable` makes a pipe one as it is asked for, `transmit_and_launch` launches the child and has
    /// it told about its end of the channel, and `register` has an event loop watch a pipe. The first call that fails
    /// decides.
    pub fn establish_with_child_custom<H, T, M, P, B, L, R>(
        make_pipes: M,
        process_handle: P,
        inheritable: B,
        process_id: u32,
        transmit_and_launch: L,
        register: R,
    ) -> (established: Result<(MessageChannel<S>, T), Error>) where
        M: FnOnce(PipeType) -> Result<(H, H), Error>,
        P: FnOnce(HandleRequest) -> Result<WinHandle, Error>,
        B: FnOnce(H, HandleRequest) -> Result<WinHandle, Error>,
        L: FnOnce(ChildMessageChannel) -> Result<(ProcessHandle, T), Error>,
        R: FnOnce(H) -> Result<S, Error>,

        requires
            make_pipes.requires((message_pipe(),)),
            forall|server: H, client: H| #[trigger]
                make_pipes.ensures((message_pipe(),), Ok((server, client))) ==> {
                    &&& process_handle.requires((process_request(true),))
                    &&& forall|handle: Result<WinHandle, Error>| #[trigger]
                        process_handle.ensures((process_request(true),), handle) && handle is Ok
                            ==> inheritable.requires((client, inheritance_request()))
                    &&& forall|channel: ChildMessageChannel|
                        child_inherits(process_handle, inheritable, client, process_id, channel) ==> #[trigger]
                            transmit_and_launch.requires((channel,))
                    &&& forall|channel: ChildMessageChannel, launched: Result<(ProcessHandle, T), Error>| #[trigger]
                        transmit_and_launch.ensures((channel,), launched) && launched is Ok ==> register.requires(
                            (server,),
                        )
                },
        ensures
            exists|pipes: Result<(H, H), Error>| #[trigger]
                make_pipes.ensures((message_pipe(),), pipes) && match (pipes, established) {
                    (Err(e), _) => established == Err::<(MessageChannel<S>, T), Error>(e),
                    (Ok((server, client)), Ok((channel, t))) => {
                        &&& register.ensures((server,), Ok(channel.pipe))
                        &&& channel.server
                        &&& exists|sent: ChildMessageChannel, launched: Result<(ProcessHandle, T), Error>| #[trigger]
                            transmit_and_launch.ensures((sent,), launched) && child_inherits(
                                process_handle,
                                inheritable,
                                client,
                                process_id,
                                sent,
                            ) && (launched matches Ok((process, returned)) && returned == t && channel.target
                                == HandleTarget::RemoteProcess(process))
                    },
                    (Ok((server, client)), Err(e)) => {
                        ||| process_handle.ensures((process_request(true),), Err(e))
                        ||| inheritable.ensures((client, inheritance_request()), Err(e))
                        ||| exists|sent: ChildMessageChannel| #[trigger]
                            transmit_and_launch.ensures((sent,), Err(e)) && child_inherits(
                                process_handle,
                                inheritable,
                                client,
                                process_id,
                                sent,
                            )
                        ||| register.ensures((server,), Err(e))
                    },
                },
    {
        let pipes = make_pipes(message_pipe());
        assert(make_pipes.ensures((message_pipe(),), pipes));
        let (server_pipe, client_pipe) = match pipes {
            Ok(pipes) => pipes,
            Err(e) => return Err(e),
        };
        let handle = match process_handle(process_request(true)) {
            Ok(handle) => handle,
            Err(e) => return Err(e),
        };
        let channel_handle = match inheritable(client_pipe, inheritance_request()) {
            Ok(handle) => handle,
            Err(e) => return Err(e),
        };
        let to_be_sent = ChildMessageChannel {
            channel_handle,
            remote_process_handle: Some(handle),
            remote_process_id: process_id,
        };
        let ghost sent = to_be_sent;
        let launched = transmit_and_launch(to_be_sent);
        assert(transmit_and_launch.ensures((sent,), launched));
        let (child_handle, t) = match launched {
            Ok(launched) => launched,
            Err(e) => return Err(e),
        };
        match register(server_pipe) {
            Ok(pipe) => Ok(
                (MessageChannel { pipe, server: true, target: HandleTarget::RemoteProcess(child_handle) }, t),
            ),
            Err(e) => Err(e),
        }
    }

    /// The process that handles are sent to over the channel.
    pub open spec fn spec_handle_target(&self) -> HandleTarget<RemoteProcess> {
        match self.target {
            HandleTarget::Nobody => HandleTarget::Nobody,
            HandleTarget::CurrentProcess => HandleTarget::CurrentProcess,
            HandleTarget::RemoteProcess(p) => HandleTarget::RemoteProcess(
                RemoteProcess { handle: (p.handle.0).0, id: p.id },
            ),
        }
    }

    /// The process that handles are sent to over the channel.
    pub fn handle_target(&self) -> (target: HandleTarget<RemoteProcess>)
        ensures
            target == self.spec_handle_target(),
    {
        match &self.target {
            HandleTarget::Nobody => HandleTarget::Nobody,
            HandleTarget::CurrentProcess => HandleTarget::CurrentProcess,
            HandleTarget::RemoteProcess(p) => HandleTarget::RemoteProcess(p.remote()),
        }
    }
}

/// A handle that a process inherited, as it is told about it. There is none if what it was told cannot be a
/// handle.
pub fn inherited_handle(handle: Option<WinHandle>) -> (inherited: Result<WinHandle, Error>)
    ensures
        inherited == match handle {
            Some(handle) => Ok::<WinHandle, Error>(handle),
            None => Err(Error::Fault(Fault::InvalidInheritedHandle)),
        },
{
    match handle {
        Some(handle) => Ok(handle),
        None => Err(Error::Fault(Fault::InvalidInheritedHandle)),
    }
}

impl ChildMessageChannel {
    /// The child's end of the channel. It sends handles to its parent if it inherited a handle to it. `register`
    /// has an event loop watch a pipe.
    pub fn into_channel<S, R: FnOnce(WinHandle) -> Result<S, Error>>(self, register: R) -> (channel: Result<
        MessageChannel<S>,
        Error,
    >)
        requires
            register.requires((self.channel_handle,)),
        ensures
            match channel {
                Ok(c) => {
                    &&& register.ensures((self.channel_handle,), Ok(c.pipe))
                    &&& !c.server
                    &&& c.target == match self.remote_process_handle {
                        Some(handle) => HandleTarget::RemoteProcess(
                            ProcessHandle { handle: SendableWinHandle(handle), id: self.remote_process_id },
                        ),
                        None => HandleTarget::Nobody,
                    }
                },
                Err(e) => register.ensures((self.channel_handle,), Err(e)),
            },
    {
        match register(self.channel_handle) {
            Ok(pipe) => Ok(
                MessageChannel {
                    pipe,
                    server: false,
                    target: match self.remote_process_handle {
                        Some(handle) => HandleTarget::RemoteProcess(
                            ProcessHandle { handle: SendableWinHandle(handle), id: self.remote_process_id },
                        ),
                        None => HandleTarget::Nobody,
                    },
                },
            ),
            Err(e) => Err(e),
        }
    }

    /// The handles that the child inherits: that of the pipe, then that of this process if there is one.
    pub open spec fn spec_handles(&self) -> Seq<usize> {
        match self.remote_process_handle {
            Some(process) => seq![self.channel_handle.0, process.0],
            None => seq![self.channel_handle.0],
        }
    }

    /// The handles that the child inherits, one by one.
    pub fn handles(&self) -> (handles: ChildMessageChannelHandles<'_>)
        ensures
            handles.channel == self,
            handles.index == 0,
    {
        ChildMessageChannelHandles { channel: self, index: 0 }
    }
}

/// Goes through the handles that a child inherits.
#[derive(Debug)]
pub struct ChildMessageChannelHandles<'a> {
    pub channel: &'a ChildMessageChannel,
    pub index: usize,
}

impl<'a> ChildMessageChannelHandles<'a> {
    /// The next handle.
    pub fn next(&mut self) -> (handle: Option<usize>)
        ensures
            final(self).channel == old(self).channel,
            final(self).index == (if old(self).index < 2 {
                (old(self).index + 1) as usize
            } else {
                old(self).index
            }),
            handle == (if old(self).index < old(self).channel.spec_handles().len() {
                Some(old(self).channel.spec_handles()[old(self).index as int])
            } else {
                None
            }),
    {
        let handle = match self.index {
            0 => Some(self.channel.channel_handle.0),
            1 => match &self.channel.remote_process_handle {
                Some(handle) => Some(handle.0),
                None => None,
            },
            _ => return None,
        };
        self.index = self.index + 1;
        handle
    }
}

impl<H> PreMessageChannel<H> {
    /// Both ends of a channel. `make_pipes` makes a pair of connected pipes of a kind.
    pub fn pair<M: FnOnce(PipeType) -> Result<(H, H), Error>>(make_pipes: M) -> (pair: Result<
        (PreMessageChannel<H>, PreMessageChannel<H>),
        Error,
    >)
        requires
            make_pipes.requires((message_pipe(),)),
        ensures
            match pair {
                Ok((a, b)) => {
                    &&& make_pipes.ensures((message_pipe(),), Ok((a.pipe.0, b.pipe.0)))
                    &&& a.server && !b.server
                },
                Err(e) => make_pipes.ensures((message_pipe(),), Err(e)),
            },
    {
        match make_pipes(message_pipe()) {
            Ok((server, client)) => Ok(
                (
                    PreMessageChannel { pipe: SendableWinHandle(server), server: true },
                    PreMessageChannel { pipe: SendableWinHandle(client), server: false },
                ),
            ),
            Err(e) => Err(e),
        }
    }

    /// The channel with the process that holds the other end, to which handles can be sent. `register` has an
    /// event loop watch a pipe.
    pub fn into_channel<S, R: FnOnce(H) -> Result<S, Error>>(self, process_handle: ProcessHandle, register: R) -> (
    channel: Result<MessageChannel<S>, Error>)
        requires
            register.requires((self.pipe.0,)),
        ensures
            match channel {
                Ok(c) => {
                    &&& register.ensures((self.pipe.0,), Ok(c.pipe))
                    &&& c.server == self.server
                    &&& c.target == HandleTarget::RemoteProcess(process_handle)
                },
                Err(e) => register.ensures((self.pipe.0,), Err(e)),
            },
    {
        match register(self.pipe.0) {
            Ok(pipe) => Ok(
                MessageChannel { pipe, server: self.server, target: HandleTarget::RemoteProcess(process_handle) },
            ),
            Err(e) => Err(e),
        }
    }

    /// The channel with whatever process holds the other end, to which no handles can be sent. `register` has an
    /// event loop watch a pipe.
    pub fn into_sealed_channel<S, R: FnOnce(H) -> Result<S, Error>>(self, register: R) -> (channel: Result<
        MessageChannel<S>,
        Error,
    >)
        requires
            register.requires((self.pipe.0,)),
        ensures
            match channel {
                Ok(c) => {
                    &&& register.ensures((self.pipe.0,), Ok(c.pipe))
                    &&& c.server == self.server
                    &&& c.target == HandleTarget::<ProcessHandle>::Nobody
                },
                Err(e) => register.ensures((self.pipe.0,), Err(e)),
            },
    {
        match register(self.pipe.0) {
            Ok(pipe) => Ok(MessageChannel { pipe, server: self.server, target: HandleTarget::Nobody }),
            Err(e) => Err(e),
        }
    }
}

/// A sealed channel does not send handles: the sender of a message on it has no process to send them to.
pub proof fn sealed_channel_sends_no_handles<S>(channel: MessageChannel<S>, sender: HandleSender)
    requires
        channel.target == HandleTarget::<ProcessHandle>::Nobody,
        sender.target == channel.spec_handle_target(),
    ensures
        sender.spec_process() is None,
{
}

/// The units that a character has in a string of Windows.
pub open spec fn utf16_char(c: char) -> Seq<u16> {
    let n = c as u32;
    if n < 0x1_0000 {
        seq![n as u16]
    } else {
        seq![(0xD800 + (n - 0x1_0000) / 0x400) as u16, (0xDC00 + (n - 0x1_0000) % 0x400) as u16]
    }
}

/// The units of a text.
pub open spec fn utf16(text: Seq<char>) -> Seq<u16>
    decreases text.len(),
{
    if text.len() == 0 {
        Seq::empty()
    } else {
        utf16(text.drop_last()) + utf16_char(text.last())
    }
}

/// A text can be handed to the operating system: it holds no zero before its end.
pub open spec fn wide_is_valid(text: Seq<char>) -> bool {
    forall|i: int| 0 <= i < text.len() - 1 ==> text[i] != '\0'
}

/// A text as the operating system wants it, with a zero at its end.
pub open spec fn wide(text: Seq<char>) -> Seq<u16> {
    if text.len() > 0 && text.last() == '\0' {
        utf16(text)
    } else {
        utf16(text).push(0)
    }
}

/// A text as the operating system wants it: `widestring::U16CString::from_str`.
///
/// What is claimed is that it refuses just the texts that hold a zero before their end, and that it gives the
/// units of the text in UTF-16, with a zero at the end unless the text has one there already.
#[verifier::external_body]
fn wide_text(text: &str) -> (units: Option<Vec<u16>>)
    ensures
        units is Some <==> wide_is_valid(text@),
        units matches Some(u) ==> u@ == wide(text@),
{
    match widestring::U16CString::from_str(text) {
        Ok(units) => Some(units.into_vec_with_nul()),
        Err(_) => None,
    }
}

/// The name of a pipe as the operating system wants it.
pub fn wide_pipe_name(name: &str) -> (units: Result<Vec<u16>, Error>)
    ensures
        !wide_is_valid(name@) ==> units == Err::<Vec<u16>, Error>(Error::Fault(Fault::InvalidPipeName)),
        wide_is_valid(name@) ==> (units matches Ok(u) && u@ == wide(name@)),
{
    match wide_text(name) {
        Some(units) => Ok(units),
        None => Err(Error::Fault(Fault::InvalidPipeName)),
    }
}

/// The process at the other end of a pipe. `process_id` asks for its number, and `open_process` opens it.
fn other_end<H, I, P>(pipe: &H, process_id: I, open_process: P) -> (process: Result<ProcessHandle, Error>) where
    I: FnOnce(&H) -> Result<u32, Error>,
    P: FnOnce(u32, HandleRequest) -> Result<WinHandle, Error>,

    requires
        process_id.requires((pipe,)),
        forall|id: u32| #[trigger] process_id.ensures((pipe,), Ok(id))
            ==> open_process.requires((id, process_request(false))),
    ensures
        match process {
            Ok(p) => process_id.ensures((pipe,), Ok(p.id))
                && open_process.ensures((p.id, process_request(false)), Ok(p.handle.0)),
            Err(e) => {
                ||| process_id.ensures((pipe,), Err(e))
                ||| exists|id: u32| #[trigger]
                    process_id.ensures((pipe,), Ok(id)) && open_process.ensures((id, process_request(false)), Err(e))
            },
        },
{
    match process_id(pipe) {
        Ok(id) => {
            assert(process_id.ensures((pipe,), Ok(id)));
            match open_process(id, process_request(false)) {
                Ok(handle) => Ok(ProcessHandle { handle: SendableWinHandle(handle), id }),
                Err(e) => Err(e),
            }
        },
        Err(e) => Err(e),
    }
}

impl<H> NamedMessageChannel<H> {
    /// Makes a pipe with a fresh name and has it wait for a connection. `create` makes a pipe with a name, and
    /// `connect` has the pipe start to wait.
    pub fn new<C, N>(create: C, connect: N) -> (channel: Result<NamedMessageChannel<H>, Error>) where
        C: FnOnce(&String, PipeRequest) -> Result<H, Error>,
        N: FnOnce(&H) -> ConnectReply,

        requires
            forall|name: &String| pipe_name(name@)
                ==> #[trigger] create.requires((name, pipe_request(message_pipe(), false))),
            forall|name: &String, created: Result<H, Error>| #[trigger]
                create.ensures((name, pipe_request(message_pipe(), false)), created) && created is Ok
                    ==> connect.requires((&created->Ok_0,)),
        ensures
            match channel {
                Ok(c) => {
                    &&& pipe_name(c.name@)
                    &&& create.ensures((&c.name, pipe_request(message_pipe(), false)), Ok(c.server_pipe))
                    &&& exists|reply: ConnectReply| #[trigger]
                        connect.ensures((&c.server_pipe,), reply) && spec_connect_started(reply) is Ok
                },
                Err(e) => {
                    ||| exists|name: &String| #[trigger]
                        create.ensures((name, pipe_request(message_pipe(), false)), Err(e)) && pipe_name(name@)
                    ||| exists|pipe: &H, reply: ConnectReply| #[trigger]
                        connect.ensures((pipe,), reply) && spec_connect_started(reply) == Err::<(), Error>(e)
                            && created_under_name(create, pipe_request(message_pipe(), false), *pipe)
                },
            },
    {
        let name = new_pipe_name();
        assert(pipe_name(name@));
        let server_pipe = match create(&name, pipe_request(message_pipe(), false)) {
            Ok(pipe) => pipe,
            Err(e) => return Err(e),
        };
        assert(create.ensures((&name, pipe_request(message_pipe(), false)), Ok(server_pipe)));
        let reply = connect(&server_pipe);
        assert(connect.ensures((&server_pipe,), reply));
        match connect_started(reply) {
            Ok(_) => Ok(NamedMessageChannel { name, server_pipe }),
            Err(e) => Err(e),
        }
    }

    /// The name, which another process connects to.
    pub fn name(&self) -> (name: &String)
        ensures
            *name == self.name,
    {
        &self.name
    }

    /// The channel with the process that connects in time. `wait` waits for a connection for so many
    /// milliseconds, `client_id` asks for the number of the process that connected, `open_process` opens a
    /// process, and `register` has an event loop watch a pipe. The first call that fails decides.
    pub fn accept<S, W, I, P, R>(
        self,
        timeout: Option<Timeout>,
        wait: W,
        client_id: I,
        open_process: P,
        register: R,
    ) -> (channel: Result<MessageChannel<S>, Error>) where
        W: FnOnce(&H, u32) -> Result<(), Error>,
        I: FnOnce(&H) -> Result<u32, Error>,
        P: FnOnce(u32, HandleRequest) -> Result<WinHandle, Error>,
        R: FnOnce(H) -> Result<S, Error>,

        requires
            timeout matches Some(t) ==> t.secs * 1000 + t.nanos / 1_000_000 <= u64::MAX,
            forall|millis: u32|
                spec_millis(timeout, millis) ==> #[trigger] wait.requires((&self.server_pipe, millis)),
            forall|millis: u32, waited: Result<(), Error>| #[trigger]
                wait.ensures((&self.server_pipe, millis), waited) && waited is Ok ==> client_id.requires(
                    (&self.server_pipe,),
                ),
            forall|id: u32| #[trigger]
                client_id.ensures((&self.server_pipe,), Ok(id)) ==> open_process.requires((id, process_request(false))),
            forall|id: u32, handle: WinHandle| #[trigger]
                open_process.ensures((id, process_request(false)), Ok(handle))
                    ==> register.requires((self.server_pipe,)),
        ensures
            exists|millis: u32, waited: Result<(), Error>| #[trigger]
                wait.ensures((&self.server_pipe, millis), waited) && spec_millis(timeout, millis) && match waited {
                    Err(e) => channel == Err::<MessageChannel<S>, Error>(e),
                    Ok(_) => match channel {
                        Ok(c) => {
                            &&& register.ensures((self.server_pipe,), Ok(c.pipe))
                            &&& c.server
                            &&& c.target matches HandleTarget::RemoteProcess(p) && client_id.ensures(
                                (&self.server_pipe,),
                                Ok(p.id),
                            ) && open_process.ensures((p.id, process_request(false)), Ok(p.handle.0))
                        },
                        Err(e) => {
                            ||| client_id.ensures((&self.server_pipe,), Err(e))
                            ||| exists|id: u32| #[trigger]
                                client_id.ensures((&self.server_pipe,), Ok(id))
                                    && open_process.ensures((id, process_request(false)), Err(e))
                            ||| register.ensures((self.server_pipe,), Err(e))
                        },
                    },
                },
    {
        let millis: u32 = wait_millis(timeout);
        let waited = wait(&self.server_pipe, millis);
        assert(wait.ensures((&self.server_pipe, millis), waited));
        match waited {
            Ok(_) => {},
            Err(e) => return Err(e),
        }
        let process = match other_end(&self.server_pipe, client_id, open_process) {
            Ok(process) => process,
            Err(e) => return Err(e),
        };
        match register(self.server_pipe) {
            Ok(pipe) => Ok(MessageChannel { pipe, server: true, target: HandleTarget::RemoteProcess(process) }),
            Err(e) => Err(e),
        }
    }

    /// The channel with the process that waits under a name. `wait` waits for a pipe with the name to be
    /// available for so many milliseconds, `open` connects to it, `server_id` asks for the number of the process
    /// that it belongs to, `open_process` opens a process, and `register` has an event loop watch a pipe. The
    /// first call that fails decides.
    pub fn connect<S, W, O, I, P, R>(
        name: &str,
        timeout: Option<Timeout>,
        wait: W,
        open: O,
        server_id: I,
        open_process: P,
        register: R,
    ) -> (channel: Result<MessageChannel<S>, Error>) where
        W: FnOnce(&Vec<u16>, u32) -> Result<(), Error>,
        O: FnOnce(&Vec<u16>, OpenRequest) -> Result<H, Error>,
        I: FnOnce(&H) -> Result<u32, Error>,
        P: FnOnce(u32, HandleRequest) -> Result<WinHandle, Error>,
        R: FnOnce(H) -> Result<S, Error>,

        requires
            timeout matches Some(t) ==> t.secs * 1000 + t.nanos / 1_000_000 <= u64::MAX,
            forall|units: &Vec<u16>, millis: u32|
                wide_is_valid(name@) && units@ == wide(name@) && spec_millis(timeout, millis)
                    ==> #[trigger] wait.requires(
                    (units, millis),
                ),
            forall|units: &Vec<u16>, millis: u32, waited: Result<(), Error>| #[trigger]
                wait.ensures((units, millis), waited) && waited is Ok ==> open.requires((units, open_request(false))),
            forall|units: &Vec<u16>, opened: Result<H, Error>| #[trigger]
                open.ensures((units, open_request(false)), opened) && opened is Ok
                    ==> server_id.requires((&opened->Ok_0,)),
            forall|pipe: &H, id: u32| #[trigger]
                server_id.ensures((pipe,), Ok(id)) ==> open_process.requires((id, process_request(false))),
            forall|id: u32, handle: WinHandle, pipe: H|
                #![trigger open_process.ensures((id, process_request(false)), Ok(handle)), register.requires((pipe,))]
                open_process.ensures((id, process_request(false)), Ok(handle)) ==> register.requires((pipe,)),
        ensures
            !wide_is_valid(name@) ==> channel == Err::<MessageChannel<S>, Error>(Error::Fault(Fault::InvalidPipeName)),
            wide_is_valid(name@) ==> exists|units: &Vec<u16>, millis: u32, waited: Result<(), Error>| #[trigger]
                wait.ensures((units, millis), waited) && units@ == wide(name@) && spec_millis(timeout, millis)
                    && match waited {
                    Err(e) => channel == Err::<MessageChannel<S>, Error>(e),
                    Ok(_) => match channel {
                        Ok(c) => {
                            &&& !c.server
                            &&& exists|pipe: H| #[trigger]
                                open.ensures((units, open_request(false)), Ok(pipe))
                                    && register.ensures((pipe,), Ok(c.pipe))
                                    && (c.target matches HandleTarget::RemoteProcess(p) && server_id.ensures(
                                    (&pipe,),
                                    Ok(p.id),
                                ) && open_process.ensures((p.id, process_request(false)), Ok(p.handle.0)))
                        },
                        Err(e) => {
                            ||| open.ensures((units, open_request(false)), Err(e))
                            ||| exists|pipe: &H| #[trigger]
                                server_id.ensures((pipe,), Err(e))
                                    && open.ensures((units, open_request(false)), Ok(*pipe))
                            ||| exists|pipe: &H, id: u32| #[trigger]
                                server_id.ensures((pipe,), Ok(id))
                                    && open_process.ensures((id, process_request(false)), Err(e))
                                    && open.ensures((units, open_request(false)), Ok(*pipe))
                            ||| exists|pipe: H| #[trigger]
                                register.ensures((pipe,), Err(e))
                                    && open.ensures((units, open_request(false)), Ok(pipe))
                        },
                    },
                },
    {
        let units = match wide_pipe_name(name) {
            Ok(units) => units,
            Err(e) => return Err(e),
        };
        let millis: u32 = wait_millis(timeout);
        let waited = wait(&units, millis);
        assert(wait.ensures((&units, millis), waited));
        match waited {
            Ok(_) => {},
            Err(e) => return Err(e),
        }
        let client_pipe = match open(&units, open_request(false)) {
            Ok(pipe) => pipe,
            Err(e) => return Err(e),
        };
        assert(open.ensures((&units, open_request(false)), Ok(client_pipe)));
        let process = match other_end(&client_pipe, server_id, open_process) {
            Ok(process) => process,
            Err(e) => return Err(e),
        };
        match register(client_pipe) {
            Ok(pipe) => Ok(MessageChannel { pipe, server: false, target: HandleTarget::RemoteProcess(process) }),
            Err(e) => Err(e),
        }
    }
}

/// How long to wait, in milliseconds as Windows wants them.
pub open spec fn spec_millis(timeout: Option<Timeout>, millis: u32) -> bool {
    match timeout {
        None => millis == INFINITE,
        Some(t) => millis == (t.secs * 1000 + t.nanos / 1_000_000) % 0x1_0000_0000,
    }
}

} // verus!
