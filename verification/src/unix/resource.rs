//! File descriptors as resources that channels carry.

use vstd::prelude::*;

verus! {

/// What is particular to Unix about resources.
pub trait ResourceExt: Sized {
    /// The resource takes over a file descriptor.
    fn from_fd(fd: i32) -> Self;

    /// The file descriptor, if it is one.
    fn as_raw_fd(&self) -> Option<i32>;

    /// Gives up the resource for its file descriptor, if it is one.
    fn into_raw_fd(self) -> Result<i32, Self>;
}

/// What is particular to Unix about references to resources.
pub trait ResourceRefExt: Sized {
    /// Refers to a file descriptor.
    fn with_raw_fd(fd: i32) -> Self;

    /// The file descriptor, if it is one.
    fn as_raw_fd(&self) -> Option<i32>;
}

/// What is particular to Unix about the transmission of resources: channels carry them themselves.
pub trait ResourceTransceiverExt: Sized {
    /// Resources are sent and received.
    fn inline() -> Self;

    /// Resources are sent only.
    fn inline_tx_only() -> Self;

    /// Resources are received only.
    fn inline_rx_only() -> Self;
}

/// Refers to what holds a file descriptor that can be sent over a channel.
#[derive(PartialEq, Eq, Structural, Debug)]
pub struct SendableFdRef<B>(pub B);

} // verus!
