//! Sockets that travel with a message.
//!
//! To send a socket, the sender has the operating system describe it for the process at the other end of the
//! channel, and sends the description.

use crate::context::Current;
use crate::error::{Error, Fault};
use crate::windows::handles::{HandleReceiver, HandleSender, HandleTarget};
use vstd::prelude::*;

verus! {

/// The number of units in the name of a protocol.
pub const PROTOCOL_NAME_LEN: usize = 256;

/// A globally unique identifier.
#[derive(Clone, Copy, PartialEq, Eq, Debug)]
pub struct Guid {
    pub data1: u32,
    pub data2: u16,
    pub data3: u16,
    pub data4: [u8; 8],
}

/// The protocols that a protocol is layered on.
#[derive(Clone, Copy, PartialEq, Eq, Debug)]
pub struct WsaProtocolChain {
    pub chain_len: i32,
    pub chain_entries: [u32; 7],
}

/// The description of a socket for another process.
#[derive(Debug)]
pub struct WsaProtoInfo {
    pub service_flags1: u32,
    pub service_flags2: u32,
    pub service_flags3: u32,
    pub service_flags4: u32,
    pub provider_flags: u32,
    pub provider_id: Guid,
    pub catalog_entry_id: u32,
    pub protocol_chain: WsaProtocolChain,
    pub version: i32,
    pub address_family: i32,
    pub max_sock_addr: i32,
    pub min_sock_addr: i32,
    pub socket_type: i32,
    pub protocol: i32,
    pub protocol_max_offset: i32,
    pub network_byte_order: i32,
    pub security_scheme: i32,
    pub message_size: u32,
    pub provider_reserved: u32,
    pub protocol_name: Vec<u16>,
}

impl Guid {
    /// The identifier in the shape that it is sent in.
    pub fn to_parts(&self) -> (parts: (u32, u16, u16, [u8; 8]))
        ensures
            parts == (self.data1, self.data2, self.data3, self.data4),
    {
        (self.data1, self.data2, self.data3, self.data4)
    }

    /// The identifier that was sent in this shape.
    pub fn from_parts(parts: (u32, u16, u16, [u8; 8])) -> (guid: Guid)
        ensures
            guid == (Guid { data1: parts.0, data2: parts.1, data3: parts.2, data4: parts.3 }),
    {
        Guid { data1: parts.0, data2: parts.1, data3: parts.2, data4: parts.3 }
    }
}

/// The name of a protocol, from the units that were received for it: as many as it has. If there are fewer, the
/// error says how many there are.
pub fn protocol_name(units: &[u16]) -> (name: Result<Vec<u16>, usize>)
    ensures
        units@.len() < PROTOCOL_NAME_LEN ==> (name matches Err(found) && found == units@.len()),
        units@.len() >= PROTOCOL_NAME_LEN ==> (name matches Ok(n) && n@ == units@.take(PROTOCOL_NAME_LEN as int)),
{
    let mut name: Vec<u16> = Vec::new();
    let mut i: usize = 0;
    while i < PROTOCOL_NAME_LEN
        invariant
            i <= PROTOCOL_NAME_LEN,
            i <= units@.len(),
            name@ == units@.take(i as int),
        decreases PROTOCOL_NAME_LEN - i,
    {
        if i >= units.len() {
            return Err(i);
        }
        name.push(units[i]);
        i = i + 1;
        assert(name@ =~= units@.take(i as int));
    }
    Ok(name)
}

/// Serializes a socket, with the sender of the current thread, given the number of this process. `duplicate` has
/// the operating system describe a socket for a process.
pub fn serialize_socket<F: FnOnce(usize, u32) -> Result<WsaProtoInfo, Error>>(
    current: &Current<HandleSender>,
    socket: usize,
    process_id: u32,
    duplicate: F,
) -> (info: Result<WsaProtoInfo, Error>)
    requires
        current.context matches Some(sender) ==> match sender.target {
            HandleTarget::Nobody => true,
            HandleTarget::CurrentProcess => duplicate.requires((socket, process_id)),
            HandleTarget::RemoteProcess(remote) => duplicate.requires((socket, remote.id)),
        },
    ensures
        match current.context {
            None => info == Err::<WsaProtoInfo, Error>(Error::Fault(Fault::SerializeHandleOutsideChannel)),
            Some(sender) => match sender.target {
                HandleTarget::Nobody => info == Err::<WsaProtoInfo, Error>(Error::Fault(Fault::HandlesNotConfigured)),
                HandleTarget::CurrentProcess => duplicate.ensures((socket, process_id), info),
                HandleTarget::RemoteProcess(remote) => duplicate.ensures((socket, remote.id), info),
            },
        },
{
    match &current.context {
        Some(sender) => match sender.remote_process_id(process_id) {
            Ok(id) => duplicate(socket, id),
            Err(e) => Err(e),
        },
        None => Err(Error::Fault(Fault::SerializeHandleOutsideChannel)),
    }
}

/// Deserializes a socket, with the receiver of the current thread. `open` has the operating system make a socket
/// from its address family, its type, its protocol and the whole of its description.
pub fn deserialize_socket<F: FnOnce(i32, i32, i32, WsaProtoInfo) -> Result<usize, Error>>(
    current: &Current<HandleReceiver>,
    info: WsaProtoInfo,
    open: F,
) -> (socket: Result<usize, Error>)
    requires
        current.context is Some ==> open.requires((info.address_family, info.socket_type, info.protocol, info)),
    ensures
        match current.context {
            None => socket == Err::<usize, Error>(Error::Fault(Fault::DeserializeHandleOutsideChannel)),
            Some(_) => open.ensures((info.address_family, info.socket_type, info.protocol, info), socket),
        },
{
    match &current.context {
        Some(_) => open(info.address_family, info.socket_type, info.protocol, info),
        None => Err(Error::Fault(Fault::DeserializeHandleOutsideChannel)),
    }
}

} // verus!
