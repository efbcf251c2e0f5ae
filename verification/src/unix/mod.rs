//! What is particular to Unix.

pub mod channel;
pub mod channel_laws;
pub mod cmsg;
pub mod fd;
pub mod handles;
pub mod laws;
pub mod resource;
pub mod sharedmem;
pub mod sync;
