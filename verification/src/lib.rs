//! Inter-process communication primitives whose logic is verified.

pub mod bytes;
pub mod channel;
pub mod channel_laws;
pub mod context;
pub mod data_laws;
pub mod delivery;
pub mod error;
pub mod identity;
pub mod io;
pub mod laws;
pub mod layout;
pub mod mach;
pub mod resource_channel;
pub mod ser;
pub mod shm;
pub mod step;
pub mod sync;
pub mod unix;
pub mod windows;
