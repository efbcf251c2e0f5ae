//! Channels over Mach ports.

pub mod channel;
pub mod laws;
pub mod message;
pub mod resource;
pub mod word;
