//! What can go wrong.

use vstd::prelude::*;

verus! {

/// The broad class of a failure.
#[derive(Clone, Copy, PartialEq, Eq, Structural, Debug)]
pub enum ErrorKind {
    InvalidInput,
    InvalidData,
    PermissionDenied,
    BrokenPipe,
    WriteZero,
    WouldBlock,
    Other,
}

/// A failure that the library itself finds.
#[derive(Clone, Copy, PartialEq, Eq, Structural, Debug)]
pub enum Fault {
    QueueSpace,
    QueueUnaligned,
    QueueForeignMemory,
    QueueOutsideMapping,
    MutexForeignMemory,
    MutexOutsideMapping,
    MutexOffset,
    MutexUnaligned,
    MutexReadOnly,
    MemoryReadOnly,
    MapRange,
    ViewRange,
    TooManyDescriptors,
    DescriptorIndex,
    InvalidDescriptor,
    SerializeOutsideChannel,
    DeserializeOutsideChannel,
    SerializeHandleOutsideChannel,
    DeserializeHandleOutsideChannel,
    SerializeOutsideContext,
    DeserializeOutsideContext,
    SerializeInInvalidContext,
    MessageSerialization,
    Serialization,
    Deserialization,
    PartialWrite,
    NotReady,
    HandlesNotConfigured,
    ChannelSealed,
    InvalidInheritedHandle,
    InvalidHandle,
    InvalidPipeName,
    ChannelInUse,
    NoResourceTransmission,
    NoResourceReceiving,
    MessageTooShort,
    MessageLengthMismatch,
    BufferTooSmall,
    ResourceTooShort,
    ResourceKind,
    ResourceIndex,
    ResourceTaken,
    TokenMismatch,
    MissingTxDescriptor,
    MissingRxDescriptor,
    MissingTxPort,
    MissingRxPort,
    InvalidServiceName,
}

/// Why an operation failed.
#[derive(Clone, Copy, PartialEq, Eq, Structural, Debug)]
pub enum Error {
    /// The operating system refused, with this error number.
    Os(i32),
    /// The library refused.
    Fault(Fault),
}

impl Fault {
    /// The class that a failure belongs to.
    pub open spec fn spec_kind(self) -> ErrorKind {
        match self {
            Fault::MemoryReadOnly => ErrorKind::PermissionDenied,
            Fault::HandlesNotConfigured | Fault::ChannelSealed => ErrorKind::BrokenPipe,
            Fault::PartialWrite => ErrorKind::WriteZero,
            Fault::NotReady => ErrorKind::WouldBlock,
            Fault::ChannelInUse
            | Fault::MessageTooShort
            | Fault::MessageLengthMismatch
            | Fault::BufferTooSmall
            | Fault::SerializeOutsideChannel
            | Fault::DeserializeOutsideChannel
            | Fault::SerializeHandleOutsideChannel
            | Fault::DeserializeHandleOutsideChannel
            | Fault::SerializeOutsideContext
            | Fault::DeserializeOutsideContext
            | Fault::SerializeInInvalidContext
            | Fault::InvalidHandle => ErrorKind::Other,
            Fault::DescriptorIndex
            | Fault::InvalidDescriptor
            | Fault::Deserialization
            | Fault::InvalidInheritedHandle
            | Fault::ResourceTooShort
            | Fault::ResourceKind
            | Fault::ResourceIndex
            | Fault::ResourceTaken
            | Fault::TokenMismatch
            | Fault::MissingTxDescriptor
            | Fault::MissingRxDescriptor
            | Fault::MissingTxPort
            | Fault::MissingRxPort
            | Fault::InvalidServiceName => ErrorKind::InvalidData,
            _ => ErrorKind::InvalidInput,
        }
    }

    /// The class that this failure belongs to.
    pub fn kind(self) -> (kind: ErrorKind)
        ensures
            kind == self.spec_kind(),
    {
        match self {
            Fault::MemoryReadOnly => ErrorKind::PermissionDenied,
            Fault::HandlesNotConfigured | Fault::ChannelSealed => ErrorKind::BrokenPipe,
            Fault::PartialWrite => ErrorKind::WriteZero,
            Fault::NotReady => ErrorKind::WouldBlock,
            Fault::ChannelInUse
            | Fault::MessageTooShort
            | Fault::MessageLengthMismatch
            | Fault::BufferTooSmall
            | Fault::SerializeOutsideChannel
            | Fault::DeserializeOutsideChannel
            | Fault::SerializeHandleOutsideChannel
            | Fault::DeserializeHandleOutsideChannel
            | Fault::SerializeOutsideContext
            | Fault::DeserializeOutsideContext
            | Fault::SerializeInInvalidContext
            | Fault::InvalidHandle => ErrorKind::Other,
            Fault::DescriptorIndex
            | Fault::InvalidDescriptor
            | Fault::Deserialization
            | Fault::InvalidInheritedHandle
            | Fault::ResourceTooShort
            | Fault::ResourceKind
            | Fault::ResourceIndex
            | Fault::ResourceTaken
            | Fault::TokenMismatch
            | Fault::MissingTxDescriptor
            | Fault::MissingRxDescriptor
            | Fault::MissingTxPort
            | Fault::MissingRxPort
            | Fault::InvalidServiceName => ErrorKind::InvalidData,
            _ => ErrorKind::InvalidInput,
        }
    }

    /// What a failure is called.
    pub open spec fn spec_message(self) -> Seq<char> {
        match self {
            Fault::QueueSpace => "insufficient space for shared memory queue of requested size"@,
            Fault::QueueUnaligned => "mapped memory for shared memory queue must be aligned"@,
            Fault::QueueForeignMemory => "the queue is not associated with the given shared memory"@,
            Fault::QueueOutsideMapping => "the queue is not contained within this shared memory mapping"@,
            Fault::MutexForeignMemory => "the mutex is not associated with the given shared memory"@,
            Fault::MutexOutsideMapping => "mapping does not contain memory of shared mutex"@,
            Fault::MutexOffset => "out of range offset for mutex shared memory"@,
            Fault::MutexUnaligned => "memory for mutex must be aligned"@,
            Fault::MutexReadOnly => "memory for mutex must be read-write"@,
            Fault::MemoryReadOnly => "this shared memory handle is read-only"@,
            Fault::MapRange => "shared memory map range is out of bounds"@,
            Fault::ViewRange => "requested memory map range is out of bounds"@,
            Fault::TooManyDescriptors => "too many file descriptors in message destined for channel"@,
            Fault::DescriptorIndex => "out of range file descriptor index"@,
            Fault::InvalidDescriptor => "invalid file descriptor received"@,
            Fault::SerializeOutsideChannel => "attempted to serialize file descriptor outside of IPC channel"@,
            Fault::DeserializeOutsideChannel => "attempted to deserialize file descriptor outside of IPC channel"@,
            Fault::SerializeHandleOutsideChannel => "attempted to serialize handle outside of IPC channel"@,
            Fault::DeserializeHandleOutsideChannel => "attempted to deserialize handle outside of IPC channel"@,
            Fault::SerializeOutsideContext => "attempted to serialize an OS resource outside of an appropriate context (e.g. a Channel::send)"@,
            Fault::DeserializeOutsideContext => "attempted to deserialize an OS resource outside of an appropriate context (e.g. a Channel::recv)"@,
            Fault::SerializeInInvalidContext => "attempted to serialize OS resource in invalid context"@,
            Fault::MessageSerialization => "failed to serialize message"@,
            Fault::Serialization => "serialization failed"@,
            Fault::Deserialization => "deserialization failed"@,
            Fault::PartialWrite => "failed to write whole buffer"@,
            Fault::NotReady => "operation would block"@,
            Fault::HandlesNotConfigured => "this pipe is not configured to send handles"@,
            Fault::ChannelSealed => "this channel is sealed and cannot send file descriptors"@,
            Fault::InvalidInheritedHandle => "received invalid inherited handle"@,
            Fault::InvalidHandle => "invalid Windows handle received"@,
            Fault::InvalidPipeName => "invalid name for named pipe"@,
            Fault::ChannelInUse => "IO was already performed on this channel, preventing it from being sent to another process"@,
            Fault::NoResourceTransmission => "this Channel does not support resource transmission"@,
            Fault::NoResourceReceiving => "this Channel does not support resource receiving"@,
            Fault::MessageTooShort => "inline data in mach message too short"@,
            Fault::MessageLengthMismatch => "inline data in mach message does not match declared length"@,
            Fault::BufferTooSmall => "buffer too small for incomming message"@,
            Fault::ResourceTooShort => "data too short to be a resource"@,
            Fault::ResourceKind => "invalid resource kind in data"@,
            Fault::ResourceIndex => "out of range descriptor index in data"@,
            Fault::ResourceTaken => "resource already taken from message"@,
            Fault::TokenMismatch => "token in message received on advertised port did not match the one passed to child process"@,
            Fault::MissingTxDescriptor => "missing tx descriptor in message from child process"@,
            Fault::MissingRxDescriptor => "missing rx descriptor in message from child process"@,
            Fault::MissingTxPort => "missing port in tx descriptor in message from child process"@,
            Fault::MissingRxPort => "missing port in rx descriptor in message from child process"@,
            Fault::InvalidServiceName => "invalid bootstrap service name"@,
        }
    }

    /// What this failure is called.
    pub fn message(self) -> (message: &'static str)
        ensures
            message@ == self.spec_message(),
    {
        match self {
            Fault::QueueSpace => "insufficient space for shared memory queue of requested size",
            Fault::QueueUnaligned => "mapped memory for shared memory queue must be aligned",
            Fault::QueueForeignMemory => "the queue is not associated with the given shared memory",
            Fault::QueueOutsideMapping => "the queue is not contained within this shared memory mapping",
            Fault::MutexForeignMemory => "the mutex is not associated with the given shared memory",
            Fault::MutexOutsideMapping => "mapping does not contain memory of shared mutex",
            Fault::MutexOffset => "out of range offset for mutex shared memory",
            Fault::MutexUnaligned => "memory for mutex must be aligned",
            Fault::MutexReadOnly => "memory for mutex must be read-write",
            Fault::MemoryReadOnly => "this shared memory handle is read-only",
            Fault::MapRange => "shared memory map range is out of bounds",
            Fault::ViewRange => "requested memory map range is out of bounds",
            Fault::TooManyDescriptors => "too many file descriptors in message destined for channel",
            Fault::DescriptorIndex => "out of range file descriptor index",
            Fault::InvalidDescriptor => "invalid file descriptor received",
            Fault::SerializeOutsideChannel => "attempted to serialize file descriptor outside of IPC channel",
            Fault::DeserializeOutsideChannel => "attempted to deserialize file descriptor outside of IPC channel",
            Fault::SerializeHandleOutsideChannel => "attempted to serialize handle outside of IPC channel",
            Fault::DeserializeHandleOutsideChannel => "attempted to deserialize handle outside of IPC channel",
            Fault::SerializeOutsideContext => "attempted to serialize an OS resource outside of an appropriate context (e.g. a Channel::send)",
            Fault::DeserializeOutsideContext => "attempted to deserialize an OS resource outside of an appropriate context (e.g. a Channel::recv)",
            Fault::SerializeInInvalidContext => "attempted to serialize OS resource in invalid context",
            Fault::MessageSerialization => "failed to serialize message",
            Fault::Serialization => "serialization failed",
            Fault::Deserialization => "deserialization failed",
            Fault::PartialWrite => "failed to write whole buffer",
            Fault::NotReady => "operation would block",
            Fault::HandlesNotConfigured => "this pipe is not configured to send handles",
            Fault::ChannelSealed => "this channel is sealed and cannot send file descriptors",
            Fault::InvalidInheritedHandle => "received invalid inherited handle",
            Fault::InvalidHandle => "invalid Windows handle received",
            Fault::InvalidPipeName => "invalid name for named pipe",
            Fault::ChannelInUse => "IO was already performed on this channel, preventing it from being sent to another process",
            Fault::NoResourceTransmission => "this Channel does not support resource transmission",
            Fault::NoResourceReceiving => "this Channel does not support resource receiving",
            Fault::MessageTooShort => "inline data in mach message too short",
            Fault::MessageLengthMismatch => "inline data in mach message does not match declared length",
            Fault::BufferTooSmall => "buffer too small for incomming message",
            Fault::ResourceTooShort => "data too short to be a resource",
            Fault::ResourceKind => "invalid resource kind in data",
            Fault::ResourceIndex => "out of range descriptor index in data",
            Fault::ResourceTaken => "resource already taken from message",
            Fault::TokenMismatch => "token in message received on advertised port did not match the one passed to child process",
            Fault::MissingTxDescriptor => "missing tx descriptor in message from child process",
            Fault::MissingRxDescriptor => "missing rx descriptor in message from child process",
            Fault::MissingTxPort => "missing port in tx descriptor in message from child process",
            Fault::MissingRxPort => "missing port in rx descriptor in message from child process",
            Fault::InvalidServiceName => "invalid bootstrap service name",
        }
    }
}

} // verus!
