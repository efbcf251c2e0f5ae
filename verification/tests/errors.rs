use sandbox_ipc::error::{Error, ErrorKind, Fault};

#[test]
fn faults_have_their_kinds() {
    assert_eq!(Fault::QueueSpace.kind(), ErrorKind::InvalidInput);
    assert_eq!(Fault::TooManyDescriptors.kind(), ErrorKind::InvalidInput);
    assert_eq!(Fault::Serialization.kind(), ErrorKind::InvalidInput);
    assert_eq!(Fault::Deserialization.kind(), ErrorKind::InvalidData);
    assert_eq!(Fault::DescriptorIndex.kind(), ErrorKind::InvalidData);
    assert_eq!(Fault::TokenMismatch.kind(), ErrorKind::InvalidData);
    assert_eq!(Fault::MemoryReadOnly.kind(), ErrorKind::PermissionDenied);
    assert_eq!(Fault::HandlesNotConfigured.kind(), ErrorKind::BrokenPipe);
    assert_eq!(Fault::ChannelSealed.kind(), ErrorKind::BrokenPipe);
    assert_eq!(Fault::PartialWrite.kind(), ErrorKind::WriteZero);
    assert_eq!(Fault::NotReady.kind(), ErrorKind::WouldBlock);
    assert_eq!(Fault::MessageTooShort.kind(), ErrorKind::Other);
    assert_eq!(Fault::SerializeOutsideContext.kind(), ErrorKind::Other);
    assert_eq!(Fault::SerializeInInvalidContext.kind(), ErrorKind::Other);
    assert_eq!(Fault::MessageSerialization.kind(), ErrorKind::InvalidInput);
}

#[test]
fn faults_have_their_messages() {
    assert_eq!(Fault::QueueSpace.message(), "insufficient space for shared memory queue of requested size");
    assert_eq!(Fault::MemoryReadOnly.message(), "this shared memory handle is read-only");
    assert_eq!(Fault::MapRange.message(), "shared memory map range is out of bounds");
    assert_eq!(Fault::DescriptorIndex.message(), "out of range file descriptor index");
    assert_eq!(Fault::HandlesNotConfigured.message(), "this pipe is not configured to send handles");
    assert_eq!(
        Fault::SerializeOutsideChannel.message(),
        "attempted to serialize file descriptor outside of IPC channel"
    );
    assert_eq!(
        Fault::SerializeHandleOutsideChannel.message(),
        "attempted to serialize handle outside of IPC channel"
    );
    assert_eq!(
        Fault::DeserializeOutsideContext.message(),
        "attempted to deserialize an OS resource outside of an appropriate context (e.g. a Channel::recv)"
    );
    assert_eq!(
        Fault::SerializeInInvalidContext.message(),
        "attempted to serialize OS resource in invalid context"
    );
    assert_eq!(Fault::MessageSerialization.message(), "failed to serialize message");
    assert_eq!(Fault::ChannelSealed.message(), "this channel is sealed and cannot send file descriptors");
    assert_eq!(Fault::InvalidServiceName.message(), "invalid bootstrap service name");
}

#[test]
fn errors_are_told_apart() {
    assert_ne!(Error::Os(2), Error::Os(3));
    assert_ne!(Error::Os(2), Error::Fault(Fault::QueueSpace));
    assert_eq!(Error::Fault(Fault::QueueSpace), Error::Fault(Fault::QueueSpace));
}
