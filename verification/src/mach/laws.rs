//! What messages, resources and channels over Mach ports do for their users, in terms of what they hand over and what
//! they get.

use crate::error::{Error, Fault};
use crate::layout::USIZE_SIZE;
use crate::mach::channel::{
    accept_child, adopted, advertised, concluded, poll_recv, Channel, ChannelSerializer, ChildChannelBuilder,
    ChildChannelMetadata, PreChannel, RecvAttempt,
};
use crate::mach::message::{
    frame_gives_data_back, framed, inline_data_capacity, Descriptor, MsgBuffer, PortCopyMode, PortMoveMode, Right,
};
use crate::mach::resource::{
    metadata_reads_back, ChannelResourceReceiver, ChannelResourceSender, RawResource, RawResourceRef,
    RawResourceTransceiver, Resource, ResourceExt, ResourceKind, ResourceMetadata, ResourceRef, ResourceRefExt,
    ResourceTransceiver, ResourceTransceiverExt,
};
use crate::mach::word::{
    bytes_give_number_back, lemma_word_range, little_value, number_value, word_bytes, word_value, Endian,
};
use crate::ser::Async;
use vstd::prelude::*;

verus! {

/// A word that is read from the bytes it was written as is the same, whichever order they are in, and the two orders
/// are each other's reverse.
pub proof fn word_reads_back(
    x: usize,
    endian: Endian,
    bytes: Vec<u8>,
    read: &[u8],
    back: usize,
    little: Vec<u8>,
    big: Vec<u8>,
)
    ensures
        call_ensures(word_bytes, (x, endian), bytes) && read@ == bytes@ && call_ensures(word_value, (read, endian), back)
            ==> back == x && bytes@.len() == USIZE_SIZE,
        call_ensures(word_bytes, (x, Endian::Little), little) && call_ensures(word_bytes, (x, Endian::Big), big)
            ==> big@ == little@.reverse() && little@[0] == x % 256,
{
    lemma_word_range();
    bytes_give_number_back(x as nat, USIZE_SIZE as nat, endian);
}

/// What is put into a message stays in it, in the order it was put there: a right behind the rights before it, and
/// bytes behind the bytes before them.
pub proof fn message_holds_what_was_put_into_it(
    move_mode: PortMoveMode,
    copy_mode: PortCopyMode,
    port: u32,
    bytes: &[u8],
    new: MsgBuffer,
)
    ensures
        call_ensures(MsgBuffer::new, (), new) ==> new.inline_data@.len() == 0 && new.descriptors@.len() == 0,
        forall|msg: &mut MsgBuffer| #[trigger]
            call_ensures(MsgBuffer::move_right, (msg, move_mode, port), ()) ==> {
                &&& final(msg).descriptors@.len() == msg.descriptors@.len() + 1
                &&& final(msg).descriptors@.last() == (Descriptor::Port {
                    right: Right::Move(move_mode),
                    port: Some(port),
                })
                &&& forall|k: int| 0 <= k < msg.descriptors@.len() ==> final(msg).descriptors@[k] == msg.descriptors@[k]
                &&& final(msg).inline_data == msg.inline_data
            },
        forall|msg: &mut MsgBuffer| #[trigger]
            call_ensures(MsgBuffer::copy_right, (msg, copy_mode, port), ()) ==> {
                &&& final(msg).descriptors@.len() == msg.descriptors@.len() + 1
                &&& final(msg).descriptors@.last() == (Descriptor::Port {
                    right: Right::Copy(copy_mode),
                    port: Some(port),
                })
                &&& forall|k: int| 0 <= k < msg.descriptors@.len() ==> final(msg).descriptors@[k] == msg.descriptors@[k]
                &&& final(msg).inline_data == msg.inline_data
            },
        forall|msg: &mut MsgBuffer| #[trigger]
            call_ensures(MsgBuffer::extend_inline_data, (msg, bytes), ()) ==> {
                &&& final(msg).inline_data@.len() == msg.inline_data@.len() + bytes@.len()
                &&& forall|k: int| 0 <= k < msg.inline_data@.len() ==> final(msg).inline_data@[k] == msg.inline_data@[k]
                &&& forall|k: int|
                    0 <= k < bytes@.len() ==> #[trigger] final(msg).inline_data@[msg.inline_data@.len() + k] == bytes@[k]
                &&& final(msg).descriptors == msg.descriptors
            },
{
}

/// Data that a message is finished with comes out of it as it went in, into every buffer that it fits into, whichever
/// length it has; the rest of the buffer stays as it is. The bytes of the message come in groups of four, and fit into
/// the room for data of that length and its padding.
pub proof fn data_comes_out_as_it_went_in(
    data: &[u8],
    endian: Endian,
    sent: MsgBuffer,
    length: Result<usize, Error>,
    capacity: usize,
)
    ensures
        forall|msg: &mut MsgBuffer| #[trigger]
            call_ensures(MsgBuffer::finish, (msg, data, endian), ()) ==> {
                &&& final(msg).inline_data@.len() % 4 == 0
                &&& final(msg).descriptors == msg.descriptors
                &&& call_ensures(inline_data_capacity, (data.len(),), capacity) ==> capacity
                    <= final(msg).inline_data@.len() < capacity + 4
            },
        forall|msg: &mut MsgBuffer, buffer: &mut [u8]|
            #![trigger
                call_ensures(MsgBuffer::finish, (msg, data, endian), ()),
                call_ensures(MsgBuffer::data, (&sent, buffer, endian), length)
            ]
            call_ensures(MsgBuffer::finish, (msg, data, endian), ()) && sent == *final(msg) && call_ensures(
                MsgBuffer::data,
                (&sent, buffer, endian),
                length,
            ) ==> (if data@.len() <= buffer@.len() {
                &&& length matches Ok(n) && n == data@.len()
                &&& final(buffer)@.len() == buffer@.len()
                &&& forall|k: int| 0 <= k < data@.len() ==> final(buffer)@[k] == data@[k]
                &&& forall|k: int| data@.len() <= k < buffer@.len() ==> final(buffer)@[k] == buffer@[k]
            } else {
                length == Err::<usize, Error>(Error::Fault(Fault::BufferTooSmall)) && final(buffer)@ == buffer@
            }),
{
    let n = data.len();
    assert(n == data@.len());
    frame_gives_data_back(data@, endian);
}

/// A message that is too short to tell the length of its data, or shorter than it tells, is refused, and the buffer
/// stays as it is. So is the buffer where the data does not fit.
pub proof fn short_message_is_refused(
    msg: MsgBuffer,
    endian: Endian,
    length: Result<usize, Error>,
    word: &[u8],
    told: usize,
)
    ensures
        forall|buffer: &mut [u8]| #[trigger]
            call_ensures(MsgBuffer::data, (&msg, buffer, endian), length) ==> {
                &&& length is Err ==> final(buffer)@ == buffer@
                &&& msg.inline_data@.len() < USIZE_SIZE ==> length == Err::<usize, Error>(
                    Error::Fault(Fault::MessageTooShort),
                )
                &&& msg.inline_data@.len() >= USIZE_SIZE && word@ == msg.inline_data@.take(USIZE_SIZE as int)
                    && call_ensures(word_value, (word, endian), told) ==> {
                    &&& msg.inline_data@.len() - USIZE_SIZE < told ==> length == Err::<usize, Error>(
                        Error::Fault(Fault::MessageLengthMismatch),
                    )
                    &&& told <= msg.inline_data@.len() - USIZE_SIZE && told <= buffer@.len() ==> length == Ok::<
                        usize,
                        Error,
                    >(told) && forall|k: int|
                        0 <= k < told ==> #[trigger] final(buffer)@[k] == msg.inline_data@[USIZE_SIZE + k]
                }
            },
{
}

/// The number of a kind stands for that kind, and no other number stands for any.
pub proof fn kinds_have_their_numbers(kind: ResourceKind, number: u32, x: u32, back: Option<ResourceKind>)
    ensures
        call_ensures(ResourceKind::to_u32, (kind,), number) && call_ensures(ResourceKind::from_u32, (number,), back)
            ==> back == Some(kind),
        call_ensures(ResourceKind::from_u32, (x,), back) && back is Some && call_ensures(
            ResourceKind::to_u32,
            (back->0,),
            number,
        ) ==> number == x,
        call_ensures(ResourceKind::from_u32, (x,), back) ==> (back is Some <==> x < 2),
        call_ensures(ResourceKind::to_u32, (kind,), number) ==> (number == 0 <==> kind == ResourceKind::Port),
{
}

/// Metadata that is read from the bytes it was written as is the same, whichever order they are in. It takes eight
/// bytes, and no other number of bytes is metadata.
pub proof fn metadata_is_read_as_it_was_written(
    metadata: ResourceMetadata,
    endian: Endian,
    bytes: Vec<u8>,
    data: &[u8],
    read: Result<ResourceMetadata, Error>,
)
    requires
        call_ensures(ResourceMetadata::to_bytes, (&metadata, endian), bytes),
        call_ensures(ResourceMetadata::from_bytes, (data, endian), read),
    ensures
        bytes@.len() == 8,
        data@ == bytes@ ==> read == Ok::<ResourceMetadata, Error>(metadata),
        data@.len() != 8 ==> read == Err::<ResourceMetadata, Error>(Error::Fault(Fault::ResourceTooShort)),
{
    metadata_reads_back(metadata, endian);
}

/// A resource that is put into a message is found at the place that its metadata names, behind the rights that were put
/// there before it: a port with its right, and a descriptor as a port that stands for it, which the sender gives up or
/// keeps. Where no such port can be made, nothing is put there.
pub proof fn resource_lies_where_its_metadata_says<F>(
    resource: RawResource,
    reference: RawResourceRef,
    make_port: F,
    metadata: Result<ResourceMetadata, Error>,
) where F: FnOnce(i32) -> Result<u32, Error>
    ensures
        forall|sender: &mut ChannelResourceSender| #[trigger]
            call_ensures(ChannelResourceSender::move_resource::<F>, (sender, resource, make_port), metadata) ==> {
                &&& final(sender).msg.inline_data == sender.msg.inline_data
                &&& metadata is Err ==> final(sender).msg.descriptors@ == sender.msg.descriptors@ && resource is Fd
                &&& metadata matches Ok(m) ==> {
                    let place = sender.msg.descriptors@.len() as int;
                    &&& final(sender).msg.descriptors@.len() == place + 1
                    &&& forall|k: int| 0 <= k < place ==> final(sender).msg.descriptors@[k] == sender.msg.descriptors@[k]
                    &&& place <= u32::MAX ==> m.descriptor_index == place
                    &&& match resource {
                        RawResource::Port(mode, port) => m.kind == ResourceKind::Port
                            && final(sender).msg.descriptors@[place] == (Descriptor::Port {
                            right: Right::Move(mode),
                            port: Some(port),
                        }),
                        RawResource::Fd(_) => m.kind == ResourceKind::Fd && exists|port: u32|
                            #![trigger make_port.ensures((resource->Fd_0.0,), Ok(port))]
                            make_port.ensures((resource->Fd_0.0,), Ok(port)) && final(sender).msg.descriptors@[place]
                                == (Descriptor::Port { right: Right::Move(PortMoveMode::Send), port: Some(port) }),
                    }
                }
            },
        forall|sender: &mut ChannelResourceSender| #[trigger]
            call_ensures(ChannelResourceSender::copy_resource::<F>, (sender, reference, make_port), metadata) ==> {
                &&& final(sender).msg.inline_data == sender.msg.inline_data
                &&& metadata is Err ==> final(sender).msg.descriptors@ == sender.msg.descriptors@ && reference is Fd
                &&& metadata matches Ok(m) ==> {
                    let place = sender.msg.descriptors@.len() as int;
                    &&& final(sender).msg.descriptors@.len() == place + 1
                    &&& forall|k: int| 0 <= k < place ==> final(sender).msg.descriptors@[k] == sender.msg.descriptors@[k]
                    &&& place <= u32::MAX ==> m.descriptor_index == place
                    &&& match reference {
                        RawResourceRef::Port(mode, port) => m.kind == ResourceKind::Port
                            && final(sender).msg.descriptors@[place] == (Descriptor::Port {
                            right: Right::Copy(mode),
                            port: Some(port),
                        }),
                        RawResourceRef::Fd(_) => m.kind == ResourceKind::Fd && exists|port: u32|
                            #![trigger make_port.ensures((reference->Fd_0,), Ok(port))]
                            make_port.ensures((reference->Fd_0,), Ok(port)) && final(sender).msg.descriptors@[place]
                                == (Descriptor::Port { right: Right::Copy(PortCopyMode::Send), port: Some(port) }),
                    }
                }
            },
{
}

/// A resource is taken out of a message once: the first time it is what its port stands for, and the second time there
/// is nothing left. All other resources stay, and there are none beyond the rights of the message.
pub proof fn resource_is_taken_out_once<F, G>(
    metadata: ResourceMetadata,
    make_fd: F,
    resource: Result<RawResource, Error>,
    make_again: G,
    again: Result<RawResource, Error>,
    right: Right,
    port: u32,
    len: usize,
    at_rest: ChannelResourceReceiver,
) where F: FnOnce(u32) -> Result<i32, Error>, G: FnOnce(u32) -> Result<i32, Error>
    ensures
        forall|receiver: &mut ChannelResourceReceiver| #[trigger]
            call_ensures(ChannelResourceReceiver::recv_resource::<F>, (receiver, metadata, make_fd), resource) ==> {
                &&& final(receiver).data_len == receiver.data_len
                &&& final(receiver).msg.inline_data == receiver.msg.inline_data
                &&& final(receiver).msg.descriptors@.len() == receiver.msg.descriptors@.len()
                &&& forall|i: int|
                    0 <= i < receiver.msg.descriptors@.len() && i != metadata.descriptor_index ==> #[trigger]
                        final(receiver).msg.descriptors@[i] == receiver.msg.descriptors@[i]
                &&& metadata.descriptor_index >= receiver.msg.descriptors@.len() ==> resource == Err::<
                    RawResource,
                    Error,
                >(Error::Fault(Fault::ResourceIndex))
                &&& metadata.descriptor_index < receiver.msg.descriptors@.len()
                    && receiver.msg.descriptors@[metadata.descriptor_index as int] == (Descriptor::Port {
                    right,
                    port: Some(port),
                }) ==> match resource {
                    Ok(r) => r matches RawResource::Fd(fd) && make_fd.ensures((port,), Ok(fd.0)),
                    Err(e) => make_fd.ensures((port,), Err(e)),
                }
            },
        forall|receiver: &mut ChannelResourceReceiver, later: &mut ChannelResourceReceiver|
            #![trigger
                call_ensures(ChannelResourceReceiver::recv_resource::<F>, (receiver, metadata, make_fd), resource),
                call_ensures(ChannelResourceReceiver::recv_resource::<G>, (later, metadata, make_again), again)
            ]
            call_ensures(ChannelResourceReceiver::recv_resource::<F>, (receiver, metadata, make_fd), resource) && *later
                == *final(receiver) && call_ensures(
                ChannelResourceReceiver::recv_resource::<G>,
                (later, metadata, make_again),
                again,
            ) && metadata.descriptor_index < receiver.msg.descriptors@.len() ==> again == Err::<RawResource, Error>(
                Error::Fault(Fault::ResourceTaken),
            ),
        call_ensures(ChannelResourceReceiver::data_len, (&at_rest,), len) ==> len == at_rest.data_len,
{
}

/// A resource made of a port gives that port, and no descriptor; one made of a descriptor gives that descriptor, and no
/// port, and is given back as it is where the other is asked for.
pub proof fn resources_give_what_they_are_made_of(
    mode: PortMoveMode,
    copy_mode: PortCopyMode,
    port: u32,
    fd: i32,
    of_port: Resource,
    of_fd: Resource,
    ref_port: ResourceRef,
    ref_fd: ResourceRef,
    some_port: Option<u32>,
    some_fd: Option<i32>,
    into_port: Result<u32, Resource>,
    into_fd: Result<i32, Resource>,
)
    ensures
        call_ensures(<Resource as ResourceExt>::from_mach_port, (mode, port), of_port) ==> {
            &&& call_ensures(<Resource as ResourceExt>::as_mach_port, (&of_port,), some_port) ==> some_port == Some(port)
            &&& call_ensures(<Resource as ResourceExt>::into_mach_port, (of_port,), into_port) ==> into_port == Ok::<
                u32,
                Resource,
            >(port)
            &&& call_ensures(<Resource as crate::unix::resource::ResourceExt>::as_raw_fd, (&of_port,), some_fd)
                ==> some_fd is None
            &&& call_ensures(<Resource as crate::unix::resource::ResourceExt>::into_raw_fd, (of_port,), into_fd)
                ==> into_fd == Err::<i32, Resource>(of_port)
        },
        call_ensures(<Resource as crate::unix::resource::ResourceExt>::from_fd, (fd,), of_fd) ==> {
            &&& call_ensures(<Resource as ResourceExt>::as_mach_port, (&of_fd,), some_port) ==> some_port is None
            &&& call_ensures(<Resource as ResourceExt>::into_mach_port, (of_fd,), into_port) ==> into_port == Err::<
                u32,
                Resource,
            >(of_fd)
            &&& call_ensures(<Resource as crate::unix::resource::ResourceExt>::as_raw_fd, (&of_fd,), some_fd)
                ==> some_fd == Some(fd)
            &&& call_ensures(<Resource as crate::unix::resource::ResourceExt>::into_raw_fd, (of_fd,), into_fd)
                ==> into_fd == Ok::<i32, Resource>(fd)
        },
        call_ensures(<ResourceRef as ResourceRefExt>::with_mach_port, (copy_mode, port), ref_port) ==> {
            &&& call_ensures(<ResourceRef as ResourceRefExt>::as_mach_port, (&ref_port,), some_port) ==> some_port
                == Some(port)
            &&& call_ensures(<ResourceRef as crate::unix::resource::ResourceRefExt>::as_raw_fd, (&ref_port,), some_fd)
                ==> some_fd is None
        },
        call_ensures(<ResourceRef as crate::unix::resource::ResourceRefExt>::with_raw_fd, (fd,), ref_fd) ==> {
            &&& call_ensures(<ResourceRef as ResourceRefExt>::as_mach_port, (&ref_fd,), some_port) ==> some_port is None
            &&& call_ensures(<ResourceRef as crate::unix::resource::ResourceRefExt>::as_raw_fd, (&ref_fd,), some_fd)
                ==> some_fd == Some(fd)
        },
{
}

/// Resources are sent and received, sent only, or received only, as the name says.
pub proof fn transceivers_do_what_they_say(
    both: ResourceTransceiver,
    tx_only: ResourceTransceiver,
    rx_only: ResourceTransceiver,
)
    ensures
        call_ensures(<ResourceTransceiver as ResourceTransceiverExt>::mach, (), both) || call_ensures(
            <ResourceTransceiver as crate::unix::resource::ResourceTransceiverExt>::inline,
            (),
            both,
        ) ==> both.inner->tx && both.inner->rx,
        call_ensures(<ResourceTransceiver as ResourceTransceiverExt>::mach_tx_only, (), tx_only) || call_ensures(
            <ResourceTransceiver as crate::unix::resource::ResourceTransceiverExt>::inline_tx_only,
            (),
            tx_only,
        ) ==> tx_only.inner->tx && !tx_only.inner->rx,
        call_ensures(<ResourceTransceiver as ResourceTransceiverExt>::mach_rx_only, (), rx_only) || call_ensures(
            <ResourceTransceiver as crate::unix::resource::ResourceTransceiverExt>::inline_rx_only,
            (),
            rx_only,
        ) ==> !rx_only.inner->tx && rx_only.inner->rx,
{
}

/// What one end of a channel sends to, the other end receives from. A channel that is made of an end keeps its ports,
/// and carries resources just where it is made so.
pub proof fn ends_lead_to_each_other<P, N, M, G, F>(
    new_port: N,
    make_sender: M,
    pair: Result<(PreChannel<P>, PreChannel<P>), Error>,
    end: PreChannel<P>,
    register: F,
    transceiver: ResourceTransceiver,
    agreed: Option<RawResourceTransceiver>,
    channel: Result<Channel<P, G>, Error>,
) where
    N: Fn() -> Result<P, Error>,
    M: Fn(&P) -> Result<P, Error>,
    F: FnOnce(&P) -> Result<G, Error>,

    ensures
        call_ensures(PreChannel::<P>::pair::<N, M>, (new_port, make_sender), pair) ==> (pair matches Ok((a, b))
            ==> make_sender.ensures((&b.rx,), Ok(a.tx)) && make_sender.ensures((&a.rx,), Ok(b.tx)) && new_port.ensures(
            (),
            Ok(a.rx),
        ) && new_port.ensures((), Ok(b.rx))),
        call_ensures(PreChannel::<P>::into_channel::<G, F>, (end, register), channel) ==> match channel {
            Ok(c) => c.tx == end.tx && c.rx == end.rx && register.ensures((&end.rx,), Ok(c.rx_registration))
                && c.resource_transceiver is None,
            Err(e) => register.ensures((&end.rx,), Err(e)),
        },
        call_ensures(PreChannel::<P>::into_resource_channel::<G, F>, (end, register, transceiver), channel)
            ==> match channel {
            Ok(c) => c.tx == end.tx && c.rx == end.rx && register.ensures((&end.rx,), Ok(c.rx_registration))
                && c.resource_transceiver == Some(transceiver.inner),
            Err(e) => register.ensures((&end.rx,), Err(e)),
        },
        call_ensures(PreChannel::<P>::into_agreed_channel::<G, F>, (end, register, agreed), channel) ==> match channel {
            Ok(c) => c.tx == end.tx && c.rx == end.rx && register.ensures((&end.rx,), Ok(c.rx_registration))
                && c.resource_transceiver == agreed,
            Err(e) => register.ensures((&end.rx,), Err(e)),
        },
{
}

/// Data that one channel sends is what another one receives, into every buffer that it fits into. A message that could
/// not be received is not one.
pub proof fn data_is_received_as_it_was_sent<P, G>(
    sender: Channel<P, G>,
    receiver: Channel<P, G>,
    data: &[u8],
    endian: Endian,
    msg: MsgBuffer,
    length: Result<usize, Error>,
    refused: Error,
)
    ensures
        call_ensures(Channel::<P, G>::send, (&sender, data, endian), msg) ==> msg.descriptors@.len() == 0,
        forall|buffer: &mut [u8]| #[trigger]
            call_ensures(Channel::<P, G>::recv, (&receiver, Ok(msg), buffer, endian), length) && call_ensures(
                Channel::<P, G>::send,
                (&sender, data, endian),
                msg,
            ) ==> (if data@.len() <= buffer@.len() {
                &&& length matches Ok(n) && n == data@.len()
                &&& final(buffer)@.len() == buffer@.len()
                &&& forall|k: int| 0 <= k < data@.len() ==> final(buffer)@[k] == data@[k]
                &&& forall|k: int| data@.len() <= k < buffer@.len() ==> final(buffer)@[k] == buffer@[k]
            } else {
                length == Err::<usize, Error>(Error::Fault(Fault::BufferTooSmall)) && final(buffer)@ == buffer@
            }),
        forall|buffer: &mut [u8]|
            #![trigger call_ensures(Channel::<P, G>::recv, (&receiver, Err(refused), buffer, endian), length)]
            call_ensures(Channel::<P, G>::recv, (&receiver, Err(refused), buffer, endian), length) ==> length == Err::<
                usize,
                Error,
            >(refused) && final(buffer)@ == buffer@,
{
    let n = data.len();
    assert(n == data@.len());
    frame_gives_data_back(data@, endian);
}

/// A message with resources is received just by a channel that receives them. It is asked for with room for as many
/// rights as the caller takes, and for the data and its length; the receiver has that message, and the buffer its
/// data.
pub proof fn message_with_resources_is_received_whole<P, G, F>(
    channel: Channel<P, G>,
    max_resources: usize,
    endian: Endian,
    receive: F,
    receiver: Result<ChannelResourceReceiver, Error>,
    length: Result<usize, Error>,
    sender: Result<ChannelResourceSender, Error>,
) where F: FnOnce(usize, usize) -> Result<MsgBuffer, Error>
    ensures
        call_ensures(Channel::<P, G>::send_with_resources, (&channel,), sender) ==> {
            &&& sender is Ok <==> (channel.resource_transceiver matches Some(RawResourceTransceiver::Mach { tx, rx: _ })
                && tx)
            &&& sender matches Ok(s) ==> s.msg.inline_data@.len() == 0 && s.msg.descriptors@.len() == 0
            &&& sender matches Err(e) ==> e == Error::Fault(Fault::NoResourceTransmission)
        },
        forall|buffer: &mut [u8]| #[trigger]
            call_ensures(
                Channel::<P, G>::recv_with_resources::<F>,
                (&channel, max_resources, buffer, endian, receive),
                receiver,
            ) ==> {
                let takes = channel.resource_transceiver matches Some(RawResourceTransceiver::Mach { tx: _, rx }) && rx;
                &&& !takes ==> receiver == Err::<ChannelResourceReceiver, Error>(
                    Error::Fault(Fault::NoResourceReceiving),
                ) && final(buffer)@ == buffer@
                &&& takes ==> exists|msg: Result<MsgBuffer, Error>| #[trigger]
                    receive.ensures((max_resources, (USIZE_SIZE + buffer@.len()) as usize), msg) && match (
                        msg,
                        receiver,
                    ) {
                        (Err(e), _) => receiver == Err::<ChannelResourceReceiver, Error>(e) && final(buffer)@ == buffer@,
                        (Ok(m), Ok(r)) => {
                            &&& r.msg == m
                            &&& r.data_len <= buffer@.len()
                            &&& USIZE_SIZE + r.data_len <= m.inline_data@.len()
                            &&& forall|k: int|
                                0 <= k < r.data_len ==> #[trigger] final(buffer)@[k] == m.inline_data@[USIZE_SIZE + k]
                            &&& forall|k: int| r.data_len <= k < buffer@.len() ==> final(buffer)@[k] == buffer@[k]
                        },
                        (Ok(_), Err(_)) => final(buffer)@ == buffer@,
                    }
            },
{
}

/// A message that a channel sends is what was serialized: its data in a frame, and the resources for which a sender was
/// made, or none.
pub proof fn serialized_message_is_what_is_sent<'a, P, G>(
    channel: &'a Channel<P, G>,
    serializer: ChannelSerializer<'a, P, G>,
    made: ChannelSerializer<'a, P, G>,
    data: &[u8],
    endian: Endian,
    msg: MsgBuffer,
    length: Result<usize, Error>,
    alone: ChannelResourceSender,
)
    ensures
        call_ensures(ChannelSerializer::<'a, P, G>::new, (channel,), made) ==> made.channel == Some(channel)
            && made.sender is None,
        call_ensures(ChannelSerializer::<'a, P, G>::finish, (serializer, data, endian), msg) ==> {
            &&& serializer.channel is Some ==> msg.descriptors@.len() == 0
            &&& serializer.channel is None && serializer.sender is Some ==> msg.descriptors@
                == serializer.sender->0.msg.descriptors@
        },
        call_ensures(ChannelResourceSender::finish, (alone, data, endian), msg) ==> msg.descriptors
            == alone.msg.descriptors,
        forall|buffer: &mut [u8]| #[trigger]
            call_ensures(MsgBuffer::data, (&msg, buffer, endian), length) && (call_ensures(
                ChannelSerializer::<'a, P, G>::finish,
                (serializer, data, endian),
                msg,
            ) || call_ensures(ChannelResourceSender::finish, (alone, data, endian), msg)) && data@.len() <= buffer@.len()
                ==> length == Ok::<usize, Error>(data.len()) && forall|k: int|
                0 <= k < data@.len() ==> final(buffer)@[k] == data@[k],
{
    let n = data.len();
    assert(n == data@.len());
    frame_gives_data_back(data@, endian);
}

/// The sender for the resources of a message is made for the first of them, where the channel sends resources, and is
/// the same one for all others.
pub proof fn message_has_one_sender<'a, P, G>(refused: Error)
    ensures
        forall|serializer: &mut ChannelSerializer<'a, P, G>, sender: &mut ChannelResourceSender|
            #![trigger call_ensures(ChannelSerializer::<'a, P, G>::ensure_sender, (serializer,), Ok(sender))]
            call_ensures(ChannelSerializer::<'a, P, G>::ensure_sender, (serializer,), Ok(sender)) ==> {
                &&& final(serializer).sender == Some(*final(sender))
                &&& serializer.sender matches Some(present) ==> *sender == present
                &&& serializer.sender is None && serializer.channel is Some ==> sender.msg.descriptors@.len() == 0
                    && sender.msg.inline_data@.len() == 0
                    && serializer.channel->0.resource_transceiver is Some
                    && serializer.channel->0.resource_transceiver->0->tx
            },
        forall|serializer: &mut ChannelSerializer<'a, P, G>|
            #![trigger call_ensures(ChannelSerializer::<'a, P, G>::ensure_sender, (serializer,), Err(refused))]
            call_ensures(ChannelSerializer::<'a, P, G>::ensure_sender, (serializer,), Err(refused))
                && serializer.channel is Some ==> serializer.sender is None && refused == Error::Fault(
                Fault::NoResourceTransmission,
            ) && !(serializer.channel->0.resource_transceiver is Some
                && serializer.channel->0.resource_transceiver->0->tx),
{
}

/// A message is sent just where it can be serialized, for this channel and with no sender at first: its bytes in a
/// frame, with what the serializer carries.
pub proof fn message_is_sent_as_serialized<'a, P, G, F>(
    channel: &'a Channel<P, G>,
    serialize: F,
    endian: Endian,
    msg: Result<MsgBuffer, Error>,
) where F: FnOnce(&mut ChannelSerializer<'a, P, G>) -> Option<Vec<u8>>
    requires
        call_ensures(Channel::<P, G>::send_message::<F>, (channel, serialize, endian), msg),
    ensures
        msg matches Ok(m) ==> exists|serializer: &mut ChannelSerializer<'a, P, G>, bytes: Vec<u8>|
            #![trigger serialize.ensures((serializer,), Some(bytes))]
            serialize.ensures((serializer,), Some(bytes)) && serializer.channel == Some(channel)
                && serializer.sender is None && m.inline_data@ == framed(bytes@, endian) && (
            final(serializer).channel is Some ==> m.descriptors@.len() == 0) && (final(serializer).channel is None
                ==> m.descriptors@ == final(serializer).sender->0.msg.descriptors@),
        msg matches Err(e) ==> e == Error::Fault(Fault::MessageSerialization) && exists|
            serializer: &mut ChannelSerializer<'a, P, G>,
        | #[trigger]
            serialize.ensures((serializer,), None) && serializer.channel == Some(channel) && serializer.sender is None,
{
}

/// Receiving is tried just where there is something to receive, and the event loop waits for the next message just
/// where there was none after all.
pub proof fn receiving_waits_for_a_message<F, C>(
    ready: Result<Async<()>, Error>,
    receive: F,
    clear: C,
    result: Result<Async<()>, Error>,
) where F: FnOnce() -> RecvAttempt, C: FnOnce() -> Result<(), Error>
    requires
        call_ensures(poll_recv::<F, C>, (ready, receive, clear), result),
    ensures
        ready matches Err(e) ==> result == Err::<Async<()>, Error>(e),
        ready matches Ok(Async::NotReady) ==> result == Ok::<Async<()>, Error>(Async::NotReady),
        ready matches Ok(Async::Ready(_)) ==> exists|attempt: RecvAttempt| #[trigger]
            receive.ensures((), attempt) && match attempt {
                RecvAttempt::Received => result matches Ok(Async::Ready(_)),
                RecvAttempt::Failed(e) => result == Err::<Async<()>, Error>(e),
                RecvAttempt::TimedOut => exists|cleared: Result<(), Error>| #[trigger]
                    clear.ensures((), cleared) && match cleared {
                        Ok(_) => result matches Ok(Async::NotReady),
                        Err(e) => result == Err::<Async<()>, Error>(e),
                    },
            },
{
}

/// A builder changes just what it is told to change. The child is told the name and the token, and sends the resources
/// that its parent receives, and the other way round.
pub proof fn builder_keeps_what_it_is_told<C>(
    command: C,
    new: ChildChannelBuilder<C>,
    enabled: bool,
    timeout: Option<core::time::Duration>,
    builder: ChildChannelBuilder<C>,
    name: String,
    token: [u8; 32],
    metadata: ChildChannelMetadata,
)
    ensures
        call_ensures(ChildChannelBuilder::<C>::new, (command,), new) ==> new.command == command && !new.resource_tx
            && !new.resource_rx && new.timeout is None,
        forall|there: &mut ChildChannelBuilder<C>, after: &mut ChildChannelBuilder<C>| #[trigger]
            call_ensures(ChildChannelBuilder::<C>::enable_resource_tx, (there, enabled), after) ==> *after == (
            ChildChannelBuilder { resource_tx: enabled, ..*there }) && *final(there) == *final(after),
        forall|there: &mut ChildChannelBuilder<C>, after: &mut ChildChannelBuilder<C>| #[trigger]
            call_ensures(ChildChannelBuilder::<C>::enable_resource_rx, (there, enabled), after) ==> *after == (
            ChildChannelBuilder { resource_rx: enabled, ..*there }) && *final(there) == *final(after),
        forall|there: &mut ChildChannelBuilder<C>, after: &mut ChildChannelBuilder<C>| #[trigger]
            call_ensures(ChildChannelBuilder::<C>::set_timeout, (there, timeout), after) ==> *after == (
            ChildChannelBuilder { timeout, ..*there }) && *final(there) == *final(after),
        call_ensures(ChildChannelBuilder::<C>::metadata, (&builder, name, token), metadata) ==> metadata.bootstrap_name
            == name && metadata.token == token && metadata.resource_tx == builder.resource_rx && metadata.resource_rx
            == builder.resource_tx,
{
}

/// The message of a child that knows the token is accepted, and the parent has the ports that the child put into it,
/// each in its place. A message with any other bytes is not accepted, and none of its ports is taken over.
pub proof fn child_is_accepted_by_its_token<P, A>(
    metadata: ChildChannelMetadata,
    theirs: PreChannel<u32>,
    msg: MsgBuffer,
    adopt: A,
    channel: Result<PreChannel<P>, Error>,
    other: MsgBuffer,
) where A: Fn(u32) -> Result<P, Error>
    ensures
        call_ensures(ChildChannelMetadata::message, (&metadata, theirs), msg) ==> {
            &&& msg.inline_data@ == metadata.token@
            &&& msg.descriptors@.len() == 2
            &&& msg.descriptors@[0] == (Descriptor::Port { right: Right::Move(PortMoveMode::Send), port: Some(theirs.tx) })
            &&& msg.descriptors@[1] == (Descriptor::Port {
                right: Right::Move(PortMoveMode::Receive),
                port: Some(theirs.rx),
            })
        },
        call_ensures(ChildChannelMetadata::message, (&metadata, theirs), msg) && call_ensures(
            accept_child::<P, A>,
            (&msg, &metadata.token, adopt),
            channel,
        ) ==> match channel {
            Ok(c) => adopt.ensures((theirs.tx,), Ok(c.tx)) && adopt.ensures((theirs.rx,), Ok(c.rx)),
            Err(e) => adopt.ensures((theirs.tx,), Err(e)) || adopt.ensures((theirs.rx,), Err(e)),
        },
        call_ensures(accept_child::<P, A>, (&other, &metadata.token, adopt), channel) ==> {
            &&& other.inline_data@ != metadata.token@ ==> channel == Err::<PreChannel<P>, Error>(
                Error::Fault(Fault::TokenMismatch),
            )
            &&& other.inline_data@ == metadata.token@ && other.descriptors@.len() == 0 ==> channel == Err::<
                PreChannel<P>,
                Error,
            >(Error::Fault(Fault::MissingTxDescriptor))
            &&& other.inline_data@ == metadata.token@ && other.descriptors@.len() == 1
                && other.descriptors@[0] is Port ==> channel == Err::<PreChannel<P>, Error>(
                Error::Fault(Fault::MissingRxDescriptor),
            )
            &&& channel is Ok ==> other.inline_data@ == metadata.token@ && other.descriptors@.len() >= 2
        },
{
}

/// A child that joins its parent was told a name by which the parent was found, sent the parent its token and one end
/// of a channel, and has the other end. It carries resources as far as it was told.
pub proof fn child_joins_its_parent<Q, L, F, S>(
    metadata: ChildChannelMetadata,
    look_up: L,
    pair: F,
    send: S,
    ours: PreChannel<u32>,
    transceiver: Option<RawResourceTransceiver>,
) where
    L: FnOnce(&String) -> Result<Q, Error>,
    F: FnOnce() -> Result<(PreChannel<u32>, PreChannel<u32>), Error>,
    S: FnOnce(Q, MsgBuffer) -> Result<(), Error>,

    requires
        call_ensures(
            ChildChannelMetadata::into_pre_channel::<Q, L, F, S>,
            (metadata, look_up, pair, send),
            Ok((ours, transceiver)),
        ),
    ensures
        exists|ends: (PreChannel<u32>, PreChannel<u32>), port: Q, msg: MsgBuffer, sent: Result<(), Error>|
            #![trigger
                look_up.ensures((&metadata.bootstrap_name,), Ok(port)),
                pair.ensures((), Ok(ends)),
                send.ensures((port, msg), sent)
            ]
            look_up.ensures((&metadata.bootstrap_name,), Ok(port)) && pair.ensures((), Ok(ends)) && send.ensures(
                (port, msg),
                sent,
            ) && sent is Ok && ends.0 == ours && msg.inline_data@ == metadata.token@ && msg.descriptors@.len() == 2
                && msg.descriptors@[0] == (Descriptor::Port {
                right: Right::Move(PortMoveMode::Send),
                port: Some(ends.1.tx),
            }) && msg.descriptors@[1] == (Descriptor::Port {
                right: Right::Move(PortMoveMode::Receive),
                port: Some(ends.1.rx),
            }),
        transceiver is Some <==> metadata.resource_tx || metadata.resource_rx,
        transceiver matches Some(RawResourceTransceiver::Mach { tx, rx }) ==> tx == metadata.resource_tx && rx
            == metadata.resource_rx,
{
    let (ends, port, msg, sent) = choose|
        ends: (PreChannel<u32>, PreChannel<u32>),
        port: Q,
        msg: MsgBuffer,
        sent: Result<(), Error>,
    | #[trigger]
        crate::mach::channel::parent_was_told(metadata, look_up, pair, send, ends, port, msg, sent) && ends.0 == ours
            && sent is Ok;
    assert(look_up.ensures((&metadata.bootstrap_name,), Ok(port)));
    assert(pair.ensures((), Ok(ends)));
    assert(send.ensures((port, msg), sent));
}

/// A channel with a child is set up by having the child told of a name under which a port is advertised, of a token,
/// and of the resources that go both ways. A message with that token came in on that port, in time, with the ports
/// that were taken over for the channel, which carries resources as the builder was told.
pub proof fn parent_is_joined_by_its_child<P, C, D, Q, V, RM, SP, RV, A>(
    advertise: V,
    relay_metadata: RM,
    spawn: SP,
    receive: RV,
    adopt: A,
    child: D,
    channel: PreChannel<P>,
    transceiver: Option<RawResourceTransceiver>,
) where
    V: FnOnce(&String) -> Result<Q, Error>,
    RM: FnOnce(&mut C, ChildChannelMetadata) -> Result<(), Error>,
    SP: FnOnce(&mut C) -> Result<D, Error>,
    RV: FnOnce(Q, usize, usize, Option<core::time::Duration>) -> Result<MsgBuffer, Error>,
    A: Fn(u32) -> Result<P, Error>,

    ensures
        forall|builder: &mut ChildChannelBuilder<C>|
            #![trigger
                call_ensures(
                    PreChannel::<P>::establish_with_child::<C, D, Q, V, RM, SP, RV, A>,
                    (builder, advertise, relay_metadata, spawn, receive, adopt),
                    Ok((child, channel, transceiver)),
                )
            ]
            call_ensures(
                PreChannel::<P>::establish_with_child::<C, D, Q, V, RM, SP, RV, A>,
                (builder, advertise, relay_metadata, spawn, receive, adopt),
                Ok((child, channel, transceiver)),
            ) ==> {
                &&& transceiver is Some <==> builder.resource_tx || builder.resource_rx
                &&& transceiver matches Some(RawResourceTransceiver::Mach { tx, rx }) ==> tx == builder.resource_tx && rx
                    == builder.resource_rx
                &&& exists|
                    command: &mut C,
                    metadata: ChildChannelMetadata,
                    relayed: Result<(), Error>,
                    port: Q,
                    filled: &mut C,
                    msg: MsgBuffer,
                |
                    #![trigger
                        relay_metadata.ensures((command, metadata), relayed),
                        advertise.ensures((&metadata.bootstrap_name,), Ok(port)),
                        spawn.ensures((filled,), Ok(child)),
                        receive.ensures((port, 2, 32, builder.timeout), Ok(msg))
                    ]
                    relay_metadata.ensures((command, metadata), relayed) && relayed is Ok && *command
                        == builder.command && advertise.ensures((&metadata.bootstrap_name,), Ok(port))
                        && metadata.resource_tx == builder.resource_rx && metadata.resource_rx == builder.resource_tx
                        && spawn.ensures((filled,), Ok(child)) && *filled == *final(command) && receive.ensures(
                        (port, 2, 32, builder.timeout),
                        Ok(msg),
                    ) && msg.inline_data@ == metadata.token@ && msg.descriptors@.len() >= 2 && adopt.ensures(
                        (msg.descriptors@[0]->Port_port->0,),
                        Ok(channel.tx),
                    ) && adopt.ensures((msg.descriptors@[1]->Port_port->0,), Ok(channel.rx))
            },
{
    assert forall|builder: &mut ChildChannelBuilder<C>|
        #![trigger
            call_ensures(
                PreChannel::<P>::establish_with_child::<C, D, Q, V, RM, SP, RV, A>,
                (builder, advertise, relay_metadata, spawn, receive, adopt),
                Ok((child, channel, transceiver)),
            )
        ]
        call_ensures(
            PreChannel::<P>::establish_with_child::<C, D, Q, V, RM, SP, RV, A>,
            (builder, advertise, relay_metadata, spawn, receive, adopt),
            Ok((child, channel, transceiver)),
        ) implies exists|
        command: &mut C,
        metadata: ChildChannelMetadata,
        relayed: Result<(), Error>,
        port: Q,
        filled: &mut C,
        msg: MsgBuffer,
    |
        #![trigger
            relay_metadata.ensures((command, metadata), relayed),
            advertise.ensures((&metadata.bootstrap_name,), Ok(port)),
            spawn.ensures((filled,), Ok(child)),
            receive.ensures((port, 2, 32, builder.timeout), Ok(msg))
        ]
        relay_metadata.ensures((command, metadata), relayed) && relayed is Ok && *command == builder.command
            && advertise.ensures((&metadata.bootstrap_name,), Ok(port)) && metadata.resource_tx == builder.resource_rx
            && metadata.resource_rx == builder.resource_tx && spawn.ensures((filled,), Ok(child)) && *filled
            == *final(command) && receive.ensures((port, 2, 32, builder.timeout), Ok(msg)) && msg.inline_data@
            == metadata.token@ && msg.descriptors@.len() >= 2 && adopt.ensures(
            (msg.descriptors@[0]->Port_port->0,),
            Ok(channel.tx),
        ) && adopt.ensures((msg.descriptors@[1]->Port_port->0,), Ok(channel.rx)) by {
        let result = Ok::<(D, PreChannel<P>, Option<RawResourceTransceiver>), Error>((child, channel, transceiver));
        let (command, metadata, relayed, port) = choose|
            command: &mut C,
            metadata: ChildChannelMetadata,
            relayed: Result<(), Error>,
            port: Q,
        |
            #![trigger
                relay_metadata.ensures((command, metadata), relayed),
                advertised(*builder, advertise, metadata, port)
            ]
            relay_metadata.ensures((command, metadata), relayed) && advertised(*builder, advertise, metadata, port)
                && *command == builder.command && relayed is Ok && exists|filled: &mut C, spawned: Result<D, Error>|
                #[trigger]
                spawn.ensures((filled,), spawned) && *filled == *final(command) && *final(filled)
                    == final(builder).command && concluded(*builder, receive, adopt, metadata, port, spawned, result);
        let (filled, spawned) = choose|filled: &mut C, spawned: Result<D, Error>| #[trigger]
            spawn.ensures((filled,), spawned) && *filled == *final(command) && *final(filled) == final(builder).command
                && concluded(*builder, receive, adopt, metadata, port, spawned, result);
        let received = choose|received: Result<MsgBuffer, Error>| #[trigger]
            receive.ensures((port, 2, 32, builder.timeout), received) && received is Ok && adopted(
                adopt,
                received->Ok_0,
                metadata.token@,
                channel,
            );
        let msg = received->Ok_0;
        assert(relay_metadata.ensures((command, metadata), relayed));
        assert(advertise.ensures((&metadata.bootstrap_name,), Ok(port)));
        assert(spawn.ensures((filled,), Ok(child)));
        assert(receive.ensures((port, 2, 32, builder.timeout), Ok(msg)));
    }
}

/// A builder that launches a child gives it with the ports that came in a message of the child, and with what the
/// channel may do with resources: what the builder was told, or nothing if it was told of none.
pub proof fn launched_child_comes_with_its_ports<C, P, D, Q, V, RM, SP, RV, A>(
    advertise: V,
    relay_metadata: RM,
    spawn: SP,
    receive: RV,
    adopt: A,
    child: D,
    channel: PreChannel<P>,
    transceiver: Option<ResourceTransceiver>,
) where
    V: FnOnce(&String) -> Result<Q, Error>,
    RM: FnOnce(&mut C, ChildChannelMetadata) -> Result<(), Error>,
    SP: FnOnce(&mut C) -> Result<D, Error>,
    RV: FnOnce(Q, usize, usize, Option<core::time::Duration>) -> Result<MsgBuffer, Error>,
    A: Fn(u32) -> Result<P, Error>,

    ensures
        forall|builder: &mut ChildChannelBuilder<C>|
            #![trigger
                call_ensures(
                    ChildChannelBuilder::<C>::spawn_pre_channel::<P, D, Q, V, RM, SP, RV, A>,
                    (builder, advertise, relay_metadata, spawn, receive, adopt),
                    Ok((child, channel, transceiver)),
                )
            ]
            call_ensures(
                ChildChannelBuilder::<C>::spawn_pre_channel::<P, D, Q, V, RM, SP, RV, A>,
                (builder, advertise, relay_metadata, spawn, receive, adopt),
                Ok((child, channel, transceiver)),
            ) ==> {
                &&& transceiver is Some <==> builder.resource_tx || builder.resource_rx
                &&& transceiver matches Some(t) ==> t.inner->tx == builder.resource_tx && t.inner->rx
                    == builder.resource_rx
                &&& final(builder).resource_tx == builder.resource_tx && final(builder).resource_rx
                    == builder.resource_rx && final(builder).timeout == builder.timeout
                &&& exists|filled: &mut C, spawned: Result<D, Error>| #[trigger]
                    spawn.ensures((filled,), spawned) && spawned == Ok::<D, Error>(child)
                &&& exists|port: Q, received: Result<MsgBuffer, Error>| #[trigger]
                    receive.ensures((port, 2, 32, builder.timeout), received) && (received matches Ok(msg)
                        && adopt.ensures((msg.descriptors@[0]->Port_port->0,), Ok(channel.tx)) && adopt.ensures(
                        (msg.descriptors@[1]->Port_port->0,),
                        Ok(channel.rx),
                    ))
            },
{
}

/// A channel that a builder sets up with a child is over the ports that came in a message of the child, is watched by
/// an event loop, and carries resources as the builder was told.
pub proof fn channel_with_a_child_is_watched<C, P, G, D, Q, V, RM, SP, RV, A, F>(
    advertise: V,
    relay_metadata: RM,
    spawn: SP,
    receive: RV,
    adopt: A,
    register: F,
    child: D,
    channel: Channel<P, G>,
) where
    V: FnOnce(&String) -> Result<Q, Error>,
    RM: FnOnce(&mut C, ChildChannelMetadata) -> Result<(), Error>,
    SP: FnOnce(&mut C) -> Result<D, Error>,
    RV: FnOnce(Q, usize, usize, Option<core::time::Duration>) -> Result<MsgBuffer, Error>,
    A: Fn(u32) -> Result<P, Error>,
    F: FnOnce(&P) -> Result<G, Error>,

    ensures
        forall|builder: &mut ChildChannelBuilder<C>|
            #![trigger
                call_ensures(
                    ChildChannelBuilder::<C>::spawn::<P, G, D, Q, V, RM, SP, RV, A, F>,
                    (builder, advertise, relay_metadata, spawn, receive, adopt, register),
                    Ok((child, channel)),
                )
            ]
            call_ensures(
                ChildChannelBuilder::<C>::spawn::<P, G, D, Q, V, RM, SP, RV, A, F>,
                (builder, advertise, relay_metadata, spawn, receive, adopt, register),
                Ok((child, channel)),
            ) ==> {
                &&& channel.resource_transceiver is Some <==> builder.resource_tx || builder.resource_rx
                &&& channel.resource_transceiver matches Some(t) ==> t->tx == builder.resource_tx && t->rx
                    == builder.resource_rx
                &&& register.ensures((&channel.rx,), Ok(channel.rx_registration))
                &&& exists|filled: &mut C, spawned: Result<D, Error>| #[trigger]
                    spawn.ensures((filled,), spawned) && spawned == Ok::<D, Error>(child)
                &&& exists|port: Q, received: Result<MsgBuffer, Error>| #[trigger]
                    receive.ensures((port, 2, 32, builder.timeout), received) && (received matches Ok(msg)
                        && adopt.ensures((msg.descriptors@[0]->Port_port->0,), Ok(channel.tx)) && adopt.ensures(
                        (msg.descriptors@[1]->Port_port->0,),
                        Ok(channel.rx),
                    ))
            },
{
}

/// The channel of a child with its parent is over the end that the child kept when it sent the parent the other one, is
/// watched by an event loop, and carries resources as far as the child was told.
pub proof fn channel_with_the_parent_is_watched<Q, G, L, F, S, R>(
    metadata: ChildChannelMetadata,
    look_up: L,
    pair: F,
    send: S,
    register: R,
    channel: Channel<u32, G>,
) where
    L: FnOnce(&String) -> Result<Q, Error>,
    F: FnOnce() -> Result<(PreChannel<u32>, PreChannel<u32>), Error>,
    S: FnOnce(Q, MsgBuffer) -> Result<(), Error>,
    R: FnOnce(&u32) -> Result<G, Error>,

    requires
        call_ensures(
            ChildChannelMetadata::into_channel::<Q, G, L, F, S, R>,
            (metadata, look_up, pair, send, register),
            Ok(channel),
        ),
    ensures
        register.ensures((&channel.rx,), Ok(channel.rx_registration)),
        channel.resource_transceiver is Some <==> metadata.resource_tx || metadata.resource_rx,
        channel.resource_transceiver matches Some(t) ==> t->tx == metadata.resource_tx && t->rx == metadata.resource_rx,
        exists|ends: (PreChannel<u32>, PreChannel<u32>)| #[trigger]
            pair.ensures((), Ok(ends)) && ends.0.tx == channel.tx && ends.0.rx == channel.rx && exists|
                port: Q,
                msg: MsgBuffer,
                sent: Result<(), Error>,
            | #[trigger]
                send.ensures((port, msg), sent) && sent is Ok && msg.inline_data@ == metadata.token@
                    && msg.descriptors@[0]->Port_port == Some(ends.1.tx) && msg.descriptors@[1]->Port_port == Some(
                    ends.1.rx,
                ),
{
    let (ends, port, msg, sent) = choose|
        ends: (PreChannel<u32>, PreChannel<u32>),
        port: Q,
        msg: MsgBuffer,
        sent: Result<(), Error>,
    | #[trigger]
        crate::mach::channel::parent_was_told(metadata, look_up, pair, send, ends, port, msg, sent) && ends.0 == (
        PreChannel { tx: channel.tx, rx: channel.rx }) && sent is Ok;
    assert(pair.ensures((), Ok(ends)));
    assert(send.ensures((port, msg), sent));
}

/// The message of a child that knows the token and has both ports is accepted, whatever the ports are. Where a port is
/// missing, it is said which.
pub proof fn message_with_both_ports_is_accepted<P, A>(
    msg: MsgBuffer,
    token: [u8; 32],
    adopt: A,
    channel: Result<PreChannel<P>, Error>,
    first: Right,
    second: Right,
    tx: u32,
    rx: u32,
) where A: Fn(u32) -> Result<P, Error>
    requires
        call_ensures(accept_child::<P, A>, (&msg, &token, adopt), channel),
        msg.inline_data@ == token@,
        msg.descriptors@.len() >= 2,
    ensures
        msg.descriptors@[0] == (Descriptor::Port { right: first, port: Some(tx) }) && msg.descriptors@[1] == (
        Descriptor::Port { right: second, port: Some(rx) }) ==> match channel {
            Ok(c) => adopt.ensures((tx,), Ok(c.tx)) && adopt.ensures((rx,), Ok(c.rx)),
            Err(e) => adopt.ensures((tx,), Err(e)) || adopt.ensures((rx,), Err(e)),
        },
        msg.descriptors@[0] is Other ==> channel == Err::<PreChannel<P>, Error>(
            Error::Fault(Fault::MissingTxDescriptor),
        ),
        msg.descriptors@[0] is Port && msg.descriptors@[1] is Other ==> channel == Err::<PreChannel<P>, Error>(
            Error::Fault(Fault::MissingRxDescriptor),
        ),
        msg.descriptors@[0] == (Descriptor::Port { right: first, port: None }) && msg.descriptors@[1] is Port ==> channel
            == Err::<PreChannel<P>, Error>(Error::Fault(Fault::MissingTxPort)),
        msg.descriptors@[0] == (Descriptor::Port { right: first, port: Some(tx) }) && msg.descriptors@[1] == (
        Descriptor::Port { right: second, port: None }) ==> channel is Err,
{
}

/// Both ends of a channel are made where ports can be made, and a child joins its parent where every call that it takes
/// goes well, unless its name holds a zero.
pub proof fn channels_are_made_unless_a_call_fails<P, N, M, Q, L, F, S>(
    new_port: N,
    make_sender: M,
    pair: Result<(PreChannel<P>, PreChannel<P>), Error>,
    metadata: ChildChannelMetadata,
    look_up: L,
    make_pair: F,
    send: S,
    joined: Result<(PreChannel<u32>, Option<RawResourceTransceiver>), Error>,
) where
    N: Fn() -> Result<P, Error>,
    M: Fn(&P) -> Result<P, Error>,
    L: FnOnce(&String) -> Result<Q, Error>,
    F: FnOnce() -> Result<(PreChannel<u32>, PreChannel<u32>), Error>,
    S: FnOnce(Q, MsgBuffer) -> Result<(), Error>,

    requires
        forall|r: Result<P, Error>| #[trigger] new_port.ensures((), r) ==> r is Ok,
        forall|port: &P, r: Result<P, Error>| #[trigger] make_sender.ensures((port,), r) ==> r is Ok,
        forall|name: &String, r: Result<Q, Error>| #[trigger] look_up.ensures((name,), r) ==> r is Ok,
        forall|r: Result<(PreChannel<u32>, PreChannel<u32>), Error>| #[trigger] make_pair.ensures((), r) ==> r is Ok,
        forall|port: Q, msg: MsgBuffer, r: Result<(), Error>| #[trigger] send.ensures((port, msg), r) ==> r is Ok,
    ensures
        call_ensures(PreChannel::<P>::pair::<N, M>, (new_port, make_sender), pair) ==> pair is Ok,
        call_ensures(
            ChildChannelMetadata::into_pre_channel::<Q, L, F, S>,
            (metadata, look_up, make_pair, send),
            joined,
        ) ==> {
            let name_holds_a_zero = vstd::utf8::encode_utf8(metadata.bootstrap_name@).contains(0u8);
            &&& joined is Ok <==> !name_holds_a_zero
            &&& joined matches Err(e) ==> e == Error::Fault(Fault::InvalidServiceName)
        },
{
    if call_ensures(
        ChildChannelMetadata::into_pre_channel::<Q, L, F, S>,
        (metadata, look_up, make_pair, send),
        joined,
    ) && joined is Err && metadata.name_is_valid() {
        let e = joined->Err_0;
        assert(!look_up.ensures((&metadata.bootstrap_name,), Err(e)));
        assert(!make_pair.ensures((), Err(e)));
        let (ends, port, msg, sent) = choose|
            ends: (PreChannel<u32>, PreChannel<u32>),
            port: Q,
            msg: MsgBuffer,
            sent: Result<(), Error>,
        | #[trigger]
            crate::mach::channel::parent_was_told(metadata, look_up, make_pair, send, ends, port, msg, sent)
                && sent is Err && sent->Err_0 == e;
        assert(send.ensures((port, msg), sent));
    }
}

/// A channel with a child is set up where every call that it takes goes well and the child answers with the token that
/// it was told and with two ports: no other answer is refused for what it is.
pub proof fn child_is_awaited_unless_a_call_fails<P, C, D, Q, V, RM, SP, RV, A>(
    advertise: V,
    relay_metadata: RM,
    spawn: SP,
    receive: RV,
    adopt: A,
    result: Result<(D, PreChannel<P>, Option<RawResourceTransceiver>), Error>,
) where
    V: FnOnce(&String) -> Result<Q, Error>,
    RM: FnOnce(&mut C, ChildChannelMetadata) -> Result<(), Error>,
    SP: FnOnce(&mut C) -> Result<D, Error>,
    RV: FnOnce(Q, usize, usize, Option<core::time::Duration>) -> Result<MsgBuffer, Error>,
    A: Fn(u32) -> Result<P, Error>,

    requires
        forall|name: &String, r: Result<Q, Error>| #[trigger] advertise.ensures((name,), r) ==> r is Ok,
        forall|command: &mut C, metadata: ChildChannelMetadata, r: Result<(), Error>| #[trigger]
            relay_metadata.ensures((command, metadata), r) ==> r is Ok,
        forall|command: &mut C, r: Result<D, Error>| #[trigger] spawn.ensures((command,), r) ==> r is Ok,
        forall|port: u32, r: Result<P, Error>| #[trigger] adopt.ensures((port,), r) ==> r is Ok,
    ensures
        forall|builder: &mut ChildChannelBuilder<C>| #[trigger]
            call_ensures(
                PreChannel::<P>::establish_with_child::<C, D, Q, V, RM, SP, RV, A>,
                (builder, advertise, relay_metadata, spawn, receive, adopt),
                result,
            ) && result is Err ==> exists|port: Q, received: Result<MsgBuffer, Error>| #[trigger]
                receive.ensures((port, 2, 32, builder.timeout), received) && match received {
                    Err(e) => result->Err_0 == e,
                    Ok(msg) => exists|command: &mut C, metadata: ChildChannelMetadata, r: Result<(), Error>| #[trigger]
                        relay_metadata.ensures((command, metadata), r) && (msg.inline_data@ != metadata.token@
                            || msg.descriptors@.len() < 2 || !(msg.descriptors@[0] is Port)
                            || !(msg.descriptors@[1] is Port) || msg.descriptors@[0]->Port_port is None
                            || msg.descriptors@[1]->Port_port is None),
                },
{
}

/// Metadata in eight bytes is read where the number of its kind is that of a port or of a descriptor.
pub proof fn metadata_of_other_kinds_is_refused(data: &[u8], read: Result<ResourceMetadata, Error>)
    requires
        call_ensures(ResourceMetadata::from_bytes, (data, Endian::Little), read),
        data@.len() == 8,
    ensures
        read is Ok <==> data@[4] < 2 && data@[5] == 0 && data@[6] == 0 && data@[7] == 0,
        read matches Err(e) ==> e == Error::Fault(Fault::ResourceKind),
        read matches Ok(m) ==> m.descriptor_index == data@[0] + 0x100 * data@[1] + 0x1_0000 * data@[2] + 0x100_0000
            * data@[3] && (m.kind == ResourceKind::Fd <==> data@[4] == 1),
{
    lemma_four_bytes(data@.subrange(0, 4));
    lemma_four_bytes(data@.subrange(4, 8));
}

/// The number with four bytes.
proof fn lemma_four_bytes(bytes: Seq<u8>)
    requires
        bytes.len() == 4,
    ensures
        number_value(bytes, Endian::Little) == bytes[0] + 0x100 * bytes[1] + 0x1_0000 * bytes[2] + 0x100_0000 * bytes[3],
{
    let a = bytes.skip(1);
    let b = a.skip(1);
    let c = b.skip(1);
    let d = c.skip(1);
    assert(little_value(d) == 0);
    assert(little_value(c) == c[0] + 256 * little_value(d));
    assert(little_value(b) == b[0] + 256 * little_value(c));
    assert(little_value(a) == a[0] + 256 * little_value(b));
    assert(little_value(bytes) == bytes[0] + 256 * little_value(a));
}

} // verus!
