//! Resources of the operating system that messages over Mach ports carry.

use crate::error::{Error, Fault};
use crate::layout::USIZE_SIZE;
use crate::mach::message::{
    framed, Descriptor, MsgBuffer, PortCopyMode, PortMoveMode, Right, INLINE_DATA_UNIT,
};
use crate::mach::word::{
    bytes_give_number_back, lemma_little, lemma_word_range, number_bytes, number_value, Endian,
};
use crate::unix::fd::ScopedFd;
use byteorder::ByteOrder;
use vstd::prelude::*;

verus! {

/// A resource that its holder owns: a right to a port, or a file descriptor.
#[derive(PartialEq, Eq, Structural, Debug)]
pub enum RawResource {
    Port(PortMoveMode, u32),
    Fd(ScopedFd),
}

/// A resource that somebody else owns.
#[derive(Clone, Copy, PartialEq, Eq, Structural, Debug)]
pub enum RawResourceRef {
    Port(PortCopyMode, u32),
    Fd(i32),
}

/// What a channel over Mach ports may do with resources.
#[derive(Clone, Copy, PartialEq, Eq, Structural, Debug)]
pub enum RawResourceTransceiver {
    Mach { tx: bool, rx: bool },
}

/// A resource that can be sent over a channel.
#[derive(PartialEq, Eq, Structural, Debug)]
pub struct Resource {
    pub inner: RawResource,
}

/// A reference to a resource that can be sent over a channel.
#[derive(Clone, Copy, PartialEq, Eq, Structural, Debug)]
pub struct ResourceRef {
    pub inner: RawResourceRef,
}

/// Allows the transmission of resources over a channel.
///
/// Some platforms cannot transmit resources over a channel, and need another way to do so. Mach ports can
/// carry rights to other ports, and file descriptors in the shape of such rights.
#[derive(Clone, Copy, PartialEq, Eq, Structural, Debug)]
pub struct ResourceTransceiver {
    pub inner: RawResourceTransceiver,
}

/// What is particular to Mach ports about resources.
pub trait ResourceExt: Sized {
    fn from_mach_port(mode: PortMoveMode, port: u32) -> Self;

    fn as_mach_port(&self) -> Option<u32>;

    fn into_mach_port(self) -> Result<u32, Self>;
}

/// What is particular to Mach ports about references to resources.
pub trait ResourceRefExt: Sized {
    fn with_mach_port(mode: PortCopyMode, port: u32) -> Self;

    fn as_mach_port(&self) -> Option<u32>;
}

/// What is particular to Mach ports about the transmission of resources.
pub trait ResourceTransceiverExt: Sized {
    /// Resources are sent and received.
    fn mach() -> Self;

    /// Resources are sent only.
    fn mach_tx_only() -> Self;

    /// Resources are received only.
    fn mach_rx_only() -> Self;
}

impl ResourceExt for Resource {
    fn from_mach_port(mode: PortMoveMode, port: u32) -> (resource: Self)
        ensures
            resource.inner == RawResource::Port(mode, port),
    {
        Resource { inner: RawResource::Port(mode, port) }
    }

    fn as_mach_port(&self) -> (port: Option<u32>)
        ensures
            port == match self.inner {
                RawResource::Port(_, p) => Some(p),
                RawResource::Fd(_) => None,
            },
    {
        match &self.inner {
            RawResource::Port(_, port) => Some(*port),
            RawResource::Fd(_) => None,
        }
    }

    fn into_mach_port(self) -> (port: Result<u32, Self>)
        ensures
            port == match self.inner {
                RawResource::Port(_, p) => Ok::<u32, Self>(p),
                RawResource::Fd(_) => Err(self),
            },
    {
        match self.inner {
            RawResource::Port(_, port) => Ok(port),
            RawResource::Fd(fd) => Err(Resource { inner: RawResource::Fd(fd) }),
        }
    }
}

impl crate::unix::resource::ResourceExt for Resource {
    fn from_fd(fd: i32) -> (resource: Self)
        ensures
            resource.inner == RawResource::Fd(ScopedFd(fd)),
    {
        Resource { inner: RawResource::Fd(ScopedFd(fd)) }
    }

    fn as_raw_fd(&self) -> (fd: Option<i32>)
        ensures
            fd == match self.inner {
                RawResource::Fd(fd) => Some(fd.0),
                RawResource::Port(_, _) => None,
            },
    {
        match &self.inner {
            RawResource::Fd(fd) => Some(fd.0),
            RawResource::Port(_, _) => None,
        }
    }

    fn into_raw_fd(self) -> (fd: Result<i32, Self>)
        ensures
            fd == match self.inner {
                RawResource::Fd(fd) => Ok::<i32, Self>(fd.0),
                RawResource::Port(_, _) => Err(self),
            },
    {
        match self.inner {
            RawResource::Fd(fd) => Ok(fd.0),
            RawResource::Port(mode, port) => Err(Resource { inner: RawResource::Port(mode, port) }),
        }
    }
}

impl ResourceRefExt for ResourceRef {
    fn with_mach_port(mode: PortCopyMode, port: u32) -> (resource: Self)
        ensures
            resource.inner == RawResourceRef::Port(mode, port),
    {
        ResourceRef { inner: RawResourceRef::Port(mode, port) }
    }

    fn as_mach_port(&self) -> (port: Option<u32>)
        ensures
            port == match self.inner {
                RawResourceRef::Port(_, p) => Some(p),
                RawResourceRef::Fd(_) => None,
            },
    {
        match self.inner {
            RawResourceRef::Port(_, port) => Some(port),
            RawResourceRef::Fd(_) => None,
        }
    }
}

impl crate::unix::resource::ResourceRefExt for ResourceRef {
    fn with_raw_fd(fd: i32) -> (resource: Self)
        ensures
            resource.inner == RawResourceRef::Fd(fd),
    {
        ResourceRef { inner: RawResourceRef::Fd(fd) }
    }

    fn as_raw_fd(&self) -> (fd: Option<i32>)
        ensures
            fd == match self.inner {
                RawResourceRef::Fd(fd) => Some(fd),
                RawResourceRef::Port(_, _) => None,
            },
    {
        match self.inner {
            RawResourceRef::Fd(fd) => Some(fd),
            RawResourceRef::Port(_, _) => None,
        }
    }
}

impl ResourceTransceiverExt for ResourceTransceiver {
    fn mach() -> (transceiver: Self)
        ensures
            transceiver.inner == (RawResourceTransceiver::Mach { tx: true, rx: true }),
    {
        ResourceTransceiver { inner: RawResourceTransceiver::Mach { tx: true, rx: true } }
    }

    fn mach_tx_only() -> (transceiver: Self)
        ensures
            transceiver.inner == (RawResourceTransceiver::Mach { tx: true, rx: false }),
    {
        ResourceTransceiver { inner: RawResourceTransceiver::Mach { tx: true, rx: false } }
    }

    fn mach_rx_only() -> (transceiver: Self)
        ensures
            transceiver.inner == (RawResourceTransceiver::Mach { tx: false, rx: true }),
    {
        ResourceTransceiver { inner: RawResourceTransceiver::Mach { tx: false, rx: true } }
    }
}

impl crate::unix::resource::ResourceTransceiverExt for ResourceTransceiver {
    fn inline() -> (transceiver: Self)
        ensures
            transceiver.inner == (RawResourceTransceiver::Mach { tx: true, rx: true }),
    {
        Self::mach()
    }

    fn inline_tx_only() -> (transceiver: Self)
        ensures
            transceiver.inner == (RawResourceTransceiver::Mach { tx: true, rx: false }),
    {
        Self::mach_tx_only()
    }

    fn inline_rx_only() -> (transceiver: Self)
        ensures
            transceiver.inner == (RawResourceTransceiver::Mach { tx: false, rx: true }),
    {
        Self::mach_rx_only()
    }
}

/// The kind of a resource.
#[derive(Clone, Copy, PartialEq, Eq, Structural, Debug)]
pub enum ResourceKind {
    Port,
    Fd,
}

impl ResourceKind {
    /// The number that stands for the kind.
    pub open spec fn number(self) -> u32 {
        match self {
            ResourceKind::Port => 0,
            ResourceKind::Fd => 1,
        }
    }

    /// The kind that a number stands for.
    pub open spec fn of_number(x: u32) -> Option<ResourceKind> {
        if x == 0 {
            Some(ResourceKind::Port)
        } else if x == 1 {
            Some(ResourceKind::Fd)
        } else {
            None
        }
    }

    /// The kind that a number stands for.
    pub fn from_u32(x: u32) -> (kind: Option<ResourceKind>)
        ensures
            kind == ResourceKind::of_number(x),
    {
        match x {
            0 => Some(ResourceKind::Port),
            1 => Some(ResourceKind::Fd),
            _ => None,
        }
    }

    /// The number that stands for the kind.
    pub fn to_u32(self) -> (x: u32)
        ensures
            x == self.number(),
    {
        match self {
            ResourceKind::Port => 0,
            ResourceKind::Fd => 1,
        }
    }
}

/// What the receiver of a message needs to know to find a resource in it.
#[derive(Clone, Copy, PartialEq, Eq, Structural, Debug)]
pub struct ResourceMetadata {
    pub descriptor_index: u32,
    pub kind: ResourceKind,
}

/// The bytes of a number, the least significant one first: `byteorder::LittleEndian::write_u32`.
///
/// What is claimed is that it gives the four bytes of the number in that order.
#[verifier::external_body]
fn write_u32_little(n: u32) -> (bytes: Vec<u8>)
    ensures
        bytes@ == number_bytes(n as nat, 4, Endian::Little),
{
    let mut bytes = vec![0u8; 4];
    byteorder::LittleEndian::write_u32(&mut bytes, n);
    bytes
}

/// The bytes of a number, the most significant one first: `byteorder::BigEndian::write_u32`.
///
/// What is claimed is that it gives the four bytes of the number in that order.
#[verifier::external_body]
fn write_u32_big(n: u32) -> (bytes: Vec<u8>)
    ensures
        bytes@ == number_bytes(n as nat, 4, Endian::Big),
{
    let mut bytes = vec![0u8; 4];
    byteorder::BigEndian::write_u32(&mut bytes, n);
    bytes
}

/// The number with four bytes, the least significant one first: `byteorder::LittleEndian::read_u32`.
///
/// What is claimed is that it gives the number with those bytes. It would panic on fewer bytes.
#[verifier::external_body]
fn read_u32_little(bytes: &[u8]) -> (n: u32)
    requires
        bytes@.len() == 4,
    ensures
        n == number_value(bytes@, Endian::Little),
{
    byteorder::LittleEndian::read_u32(bytes)
}

/// The number with four bytes, the most significant one first: `byteorder::BigEndian::read_u32`.
///
/// What is claimed is that it gives the number with those bytes. It would panic on fewer bytes.
#[verifier::external_body]
fn read_u32_big(bytes: &[u8]) -> (n: u32)
    requires
        bytes@.len() == 4,
    ensures
        n == number_value(bytes@, Endian::Big),
{
    byteorder::BigEndian::read_u32(bytes)
}

/// The number of bytes that the metadata of a resource takes.
pub const METADATA_SIZE: usize = 8;

impl ResourceMetadata {
    /// The metadata as bytes.
    pub open spec fn spec_bytes(self, endian: Endian) -> Seq<u8> {
        number_bytes(self.descriptor_index as nat, 4, endian) + number_bytes(
            self.kind.number() as nat,
            4,
            endian,
        )
    }

    /// The metadata in bytes, or why there is none.
    pub open spec fn parsed(data: Seq<u8>, endian: Endian) -> Result<ResourceMetadata, Fault> {
        if data.len() != METADATA_SIZE {
            Err(Fault::ResourceTooShort)
        } else {
            match ResourceKind::of_number(number_value(data.subrange(4, 8), endian) as u32) {
                Some(kind) => Ok(
                    ResourceMetadata {
                        descriptor_index: number_value(data.subrange(0, 4), endian) as u32,
                        kind,
                    },
                ),
                None => Err(Fault::ResourceKind),
            }
        }
    }

    /// The metadata as bytes, to be put into a message.
    pub fn to_bytes(&self, endian: Endian) -> (bytes: Vec<u8>)
        ensures
            bytes@ == self.spec_bytes(endian),
            bytes@.len() == METADATA_SIZE,
    {
        let (index, kind) = match endian {
            Endian::Little => (write_u32_little(self.descriptor_index), write_u32_little(self.kind.to_u32())),
            Endian::Big => (write_u32_big(self.descriptor_index), write_u32_big(self.kind.to_u32())),
        };
        proof {
            lemma_little(self.descriptor_index as nat, Seq::empty(), 4);
            lemma_little(self.kind.number() as nat, Seq::empty(), 4);
        }
        let mut bytes = index;
        let mut kind = kind;
        bytes.append(&mut kind);
        bytes
    }

    /// Reads metadata from bytes.
    pub fn from_bytes(data: &[u8], endian: Endian) -> (metadata: Result<ResourceMetadata, Error>)
        ensures
            metadata == match ResourceMetadata::parsed(data@, endian) {
                Ok(m) => Ok::<ResourceMetadata, Error>(m),
                Err(fault) => Err(Error::Fault(fault)),
            },
    {
        if data.len() != METADATA_SIZE {
            return Err(Error::Fault(Fault::ResourceTooShort));
        }
        let index_bytes = vstd::slice::slice_subrange(data, 0, 4);
        let kind_bytes = vstd::slice::slice_subrange(data, 4, 8);
        let (descriptor_index, kind): (u32, u32) = match endian {
            Endian::Little => (read_u32_little(index_bytes), read_u32_little(kind_bytes)),
            Endian::Big => (read_u32_big(index_bytes), read_u32_big(kind_bytes)),
        };
        match ResourceKind::from_u32(kind) {
            Some(kind) => Ok(ResourceMetadata { descriptor_index, kind }),
            None => Err(Error::Fault(Fault::ResourceKind)),
        }
    }
}

/// Metadata that is read from the bytes it was written as is the same.
pub proof fn metadata_reads_back(metadata: ResourceMetadata, endian: Endian)
    ensures
        ResourceMetadata::parsed(metadata.spec_bytes(endian), endian) == Ok::<ResourceMetadata, Fault>(metadata),
{
    lemma_word_range();
    let index = metadata.descriptor_index as nat;
    let kind = metadata.kind.number() as nat;
    bytes_give_number_back(index, 4, endian);
    bytes_give_number_back(kind, 4, endian);
    let bytes = metadata.spec_bytes(endian);
    assert(bytes.subrange(0, 4) =~= number_bytes(index, 4, endian));
    assert(bytes.subrange(4, 8) =~= number_bytes(kind, 4, endian));
}

/// Puts together a message with resources.
#[derive(Debug)]
pub struct ChannelResourceSender {
    pub msg: MsgBuffer,
}

/// Takes resources out of a message that was received.
#[derive(Debug)]
pub struct ChannelResourceReceiver {
    pub msg: MsgBuffer,
    pub data_len: usize,
}

impl ChannelResourceSender {
    /// Puts a resource into the message, which the receiver will own. `make_port` makes a port that stands
    /// for a file descriptor.
    pub fn move_resource<F: FnOnce(i32) -> Result<u32, Error>>(&mut self, resource: RawResource, make_port: F) -> (
    metadata: Result<ResourceMetadata, Error>)
        requires
            resource matches RawResource::Fd(fd) ==> make_port.requires((fd.0,)),
        ensures
            final(self).msg.inline_data == old(self).msg.inline_data,
            match metadata {
                Ok(m) => {
                    &&& m.descriptor_index == old(self).msg.descriptors@.len() as u32
                    &&& match resource {
                        RawResource::Port(mode, port) => m.kind == ResourceKind::Port
                            && final(self).msg.descriptors@ == old(self).msg.descriptors@.push(
                            Descriptor::Port { right: Right::Move(mode), port: Some(port) },
                        ),
                        RawResource::Fd(fd) => m.kind == ResourceKind::Fd && exists|port: u32|
                            #![trigger make_port.ensures((fd.0,), Ok(port))]
                            make_port.ensures((fd.0,), Ok(port)) && final(self).msg.descriptors@
                                == old(self).msg.descriptors@.push(
                                Descriptor::Port { right: Right::Move(PortMoveMode::Send), port: Some(port) },
                            ),
                    }
                },
                Err(e) => {
                    &&& resource matches RawResource::Fd(fd) && make_port.ensures((fd.0,), Err(e))
                    &&& final(self).msg.descriptors == old(self).msg.descriptors
                },
            },
    {
        let (port, mode, kind): (u32, PortMoveMode, ResourceKind) = match resource {
            RawResource::Port(mode, port) => (port, mode, ResourceKind::Port),
            RawResource::Fd(fd) => match make_port(fd.0) {
                Ok(port) => (port, PortMoveMode::Send, ResourceKind::Fd),
                Err(e) => return Err(e),
            },
        };
        let descriptor_index: u32 = self.msg.descriptors.len() as u32;
        self.msg.move_right(mode, port);
        Ok(ResourceMetadata { descriptor_index, kind })
    }

    /// Puts a resource into the message, which the sender keeps. `make_port` makes a port that stands for a
    /// file descriptor.
    pub fn copy_resource<F: FnOnce(i32) -> Result<u32, Error>>(&mut self, resource: RawResourceRef, make_port: F) -> (
    metadata: Result<ResourceMetadata, Error>)
        requires
            resource matches RawResourceRef::Fd(fd) ==> make_port.requires((fd,)),
        ensures
            final(self).msg.inline_data == old(self).msg.inline_data,
            match metadata {
                Ok(m) => {
                    &&& m.descriptor_index == old(self).msg.descriptors@.len() as u32
                    &&& match resource {
                        RawResourceRef::Port(mode, port) => m.kind == ResourceKind::Port
                            && final(self).msg.descriptors@ == old(self).msg.descriptors@.push(
                            Descriptor::Port { right: Right::Copy(mode), port: Some(port) },
                        ),
                        RawResourceRef::Fd(fd) => m.kind == ResourceKind::Fd && exists|port: u32|
                            #![trigger make_port.ensures((fd,), Ok(port))]
                            make_port.ensures((fd,), Ok(port)) && final(self).msg.descriptors@
                                == old(self).msg.descriptors@.push(
                                Descriptor::Port { right: Right::Copy(PortCopyMode::Send), port: Some(port) },
                            ),
                    }
                },
                Err(e) => {
                    &&& resource matches RawResourceRef::Fd(fd) && make_port.ensures((fd,), Err(e))
                    &&& final(self).msg.descriptors == old(self).msg.descriptors
                },
            },
    {
        let (port, mode, kind): (u32, PortCopyMode, ResourceKind) = match resource {
            RawResourceRef::Port(mode, port) => (port, mode, ResourceKind::Port),
            RawResourceRef::Fd(fd) => match make_port(fd) {
                Ok(port) => (port, PortCopyMode::Send, ResourceKind::Fd),
                Err(e) => return Err(e),
            },
        };
        let descriptor_index: u32 = self.msg.descriptors.len() as u32;
        self.msg.copy_right(mode, port);
        Ok(ResourceMetadata { descriptor_index, kind })
    }

    /// Finishes the message with its data.
    pub fn finish(self, buffer: &[u8], endian: Endian) -> (msg: MsgBuffer)
        requires
            self.msg.inline_data@.len() == 0,
            USIZE_SIZE + buffer@.len() + INLINE_DATA_UNIT <= usize::MAX,
        ensures
            msg.inline_data@ == framed(buffer@, endian),
            msg.descriptors == self.msg.descriptors,
    {
        let mut msg = self.msg;
        msg.finish(buffer, endian);
        msg
    }
}

impl ChannelResourceReceiver {
    /// The number of bytes of data in the message.
    pub fn data_len(&self) -> (len: usize)
        ensures
            len == self.data_len,
    {
        self.data_len
    }

    /// What the metadata leads to.
    pub open spec fn at(&self, metadata: ResourceMetadata) -> Descriptor {
        self.msg.descriptors@[metadata.descriptor_index as int]
    }

    /// The metadata leads to a right that was taken out of the message already.
    pub open spec fn taken(&self, metadata: ResourceMetadata) -> bool {
        &&& metadata.descriptor_index < self.msg.descriptors@.len()
        &&& self.at(metadata) matches Descriptor::Port { port: None, .. }
    }

    /// Takes a resource out of the message. Each resource can be taken out once. `make_fd` makes a file
    /// descriptor from a port that stands for one.
    ///
    /// Only rights to ports that stand for file descriptors can be taken out.
    pub fn recv_resource<F: FnOnce(u32) -> Result<i32, Error>>(&mut self, metadata: ResourceMetadata, make_fd: F) -> (
    resource: Result<RawResource, Error>)
        requires
            metadata.descriptor_index < old(self).msg.descriptors@.len() ==> match old(self).at(metadata) {
                Descriptor::Port { port: None, .. } => true,
                Descriptor::Port { port: Some(port), .. } => metadata.kind == ResourceKind::Fd && make_fd.requires(
                    (port,),
                ),
                Descriptor::Other => false,
            },
        ensures
            final(self).data_len == old(self).data_len,
            final(self).msg.inline_data == old(self).msg.inline_data,
            final(self).msg.descriptors@.len() == old(self).msg.descriptors@.len(),
            forall|i: int|
                0 <= i < old(self).msg.descriptors@.len() && i != metadata.descriptor_index ==> #[trigger]
                    final(self).msg.descriptors@[i] == old(self).msg.descriptors@[i],
            if metadata.descriptor_index >= old(self).msg.descriptors@.len() {
                resource == Err::<RawResource, Error>(Error::Fault(Fault::ResourceIndex))
            } else if old(self).taken(metadata) {
                &&& resource == Err::<RawResource, Error>(Error::Fault(Fault::ResourceTaken))
                &&& final(self).taken(metadata)
            } else {
                let port = old(self).at(metadata)->Port_port->0;
                &&& final(self).taken(metadata)
                &&& match resource {
                    Ok(r) => r matches RawResource::Fd(fd) && make_fd.ensures((port,), Ok(fd.0)),
                    Err(e) => make_fd.ensures((port,), Err(e)),
                }
            },
    {
        let index: usize = metadata.descriptor_index as usize;
        if index >= self.msg.descriptors.len() {
            return Err(Error::Fault(Fault::ResourceIndex));
        }
        match self.msg.descriptors[index] {
            Descriptor::Port { right, port } => match port {
                Some(port) => {
                    self.msg.descriptors.set(index, Descriptor::Port { right, port: None });
                    match make_fd(port) {
                        Ok(fd) => Ok(RawResource::Fd(ScopedFd(fd))),
                        Err(e) => Err(e),
                    }
                },
                None => Err(Error::Fault(Fault::ResourceTaken)),
            },
            Descriptor::Other => Err(Error::Fault(Fault::ResourceIndex)),
        }
    }
}

/// The metadata of a resource leads to where the resource was put, whatever is put into the message after it.
pub proof fn resource_is_found_where_it_was_put(
    before: Seq<Descriptor>,
    resource: Descriptor,
    after: Seq<Descriptor>,
    metadata: ResourceMetadata,
)
    requires
        before.len() <= u32::MAX,
        metadata.descriptor_index == before.len() as u32,
    ensures
        metadata.descriptor_index < (before.push(resource) + after).len(),
        (before.push(resource) + after)[metadata.descriptor_index as int] == resource,
{
}

} // verus!
