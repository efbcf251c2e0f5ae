//! What is particular to Windows.

pub mod channel;
pub mod handles;
pub mod laws;
pub mod pipe;
pub mod request;
pub mod sharedmem;
pub mod socket;
pub mod sync;
