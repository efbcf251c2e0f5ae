use sandbox_ipc::error::{Error, Fault};
use sandbox_ipc::ser::{
    Async, AsyncSink, Attempt, BincodeDatagram, NoopWrapper, SerializeWrapper, SerializeWrapperGuard,
};
use std::io::Cursor;

/// Packets on their way, and how often something happened around serialization.
#[derive(Debug, Default)]
struct Wire {
    packets: Vec<Vec<u8>>,
    started: u32,
    committed: u32,
}

struct Counting;

struct CountingGuard<'a>(&'a mut u32);

impl<'a> SerializeWrapper<'a, Wire> for Counting {
    type SerializeGuard = CountingGuard<'a>;

    type DeserializeGuard = CountingGuard<'a>;

    fn before_serialize(io: &'a mut Wire) -> CountingGuard<'a> {
        io.started += 1;
        CountingGuard(&mut io.committed)
    }

    fn before_deserialize(io: &'a mut Wire) -> CountingGuard<'a> {
        io.started += 1;
        CountingGuard(&mut io.committed)
    }
}

impl<'a> SerializeWrapperGuard<'a> for CountingGuard<'a> {
    fn commit(self) {
        *self.0 += 1;
    }
}

fn send_all(wire: &mut Wire, bytes: &[u8]) -> Attempt {
    wire.packets.push(bytes.to_vec());
    Attempt::Done(bytes.len())
}

fn wait(_wire: &mut Wire, _bytes: &[u8]) -> Attempt {
    Attempt::WouldBlock
}

fn encode(item: &u32, buffer: &mut [u8]) -> Option<usize> {
    let mut cursor = Cursor::new(buffer);
    bincode::serialize_into(&mut cursor, item).ok()?;
    Some(cursor.position() as usize)
}

/// Puts up a packet for sending.
fn put_up(channel: &mut BincodeDatagram<Wire>, packet: &[u8]) {
    let serialize = |packet: &Vec<u8>, buffer: &mut [u8]| {
        buffer[..packet.len()].copy_from_slice(packet);
        Some(packet.len())
    };
    let taken = channel.start_send::<Vec<u8>, NoopWrapper, _, _>(packet.to_vec(), wait, serialize);
    assert_eq!(taken, Ok(AsyncSink::Ready));
}

fn decode(bytes: &[u8]) -> Option<u32> {
    bincode::deserialize(bytes).ok()
}

#[test]
fn message_arrives_as_it_was_sent() {
    let mut a = BincodeDatagram::wrap(Wire::default(), 8);
    assert_eq!(a.start_send::<u32, Counting, _, _>(0xdead_beef, send_all, encode), Ok(AsyncSink::Ready));
    assert_eq!((a.get_ref().started, a.get_ref().committed), (1, 1));
    assert_eq!(a.poll_complete(wait), Ok(Async::NotReady));
    assert_eq!(a.poll_complete(send_all), Ok(Async::Ready(())));
    assert_eq!(a.poll_complete(send_all), Ok(Async::Ready(())));
    let packets = a.into_inner().packets;
    assert_eq!(packets, vec![vec![0xef, 0xbe, 0xad, 0xde]]);

    let mut b = BincodeDatagram::wrap(Wire::default(), 8);
    b.rx_buffer = vec![9; 8];
    b.rx_buffer[..4].copy_from_slice(&packets[0]);
    assert_eq!(b.poll::<u32, Counting, _>(Attempt::Done(4), decode), Ok(Async::Ready(Some(0xdead_beef))));
    assert_eq!((b.get_mut().started, b.get_mut().committed), (1, 1));
}

#[test]
fn second_message_waits_for_the_first() {
    let mut a = BincodeDatagram::wrap(Wire::default(), 4);
    assert_eq!(a.start_send::<u32, NoopWrapper, _, _>(1, send_all, encode), Ok(AsyncSink::Ready));
    assert_eq!(a.start_send::<u32, NoopWrapper, _, _>(2, wait, encode), Ok(AsyncSink::NotReady(2)));
    assert_eq!(a.buffered_send, Some(4));
    assert_eq!(a.start_send::<u32, NoopWrapper, _, _>(2, send_all, encode), Ok(AsyncSink::Ready));
    assert_eq!(a.io.packets, vec![vec![1, 0, 0, 0]]);
    assert_eq!(a.tx_buffer, vec![2, 0, 0, 0]);
}

#[test]
fn message_that_waits_is_not_touched() {
    let mut a = BincodeDatagram::wrap(Wire::default(), 4);
    put_up(&mut a, &[9, 9]);
    let untouched = |_item: &u32, _buffer: &mut [u8]| -> Option<usize> { panic!("serialized") };
    assert_eq!(a.start_send::<u32, Counting, _, _>(2, wait, untouched), Ok(AsyncSink::NotReady(2)));
    assert_eq!((a.io.started, a.io.committed), (0, 0));
    assert_eq!(a.poll_complete(send_all), Ok(Async::Ready(())));
    assert_eq!(a.io.packets, vec![vec![9, 9]]);
}

#[test]
fn message_that_is_too_long_is_refused() {
    let mut a = BincodeDatagram::wrap(Wire::default(), 3);
    assert_eq!(
        a.start_send::<u32, Counting, _, _>(1, send_all, encode),
        Err(Error::Fault(Fault::Serialization))
    );
    assert_eq!((a.io.started, a.io.committed), (1, 0));
    assert_eq!(a.buffered_send, None);
    put_up(&mut a, &[1, 2, 3]);
    assert_eq!(a.buffered_send, Some(3));
    assert_eq!(a.tx_buffer, vec![1, 2, 3]);
}

#[test]
fn failed_serialization_leaves_what_it_wrote() {
    let mut a = BincodeDatagram::wrap(Wire::default(), 3);
    let fail = |_item: &u32, buffer: &mut [u8]| {
        buffer[..2].copy_from_slice(&[7, 8]);
        None
    };
    assert_eq!(
        a.start_send::<u32, Counting, _, _>(1, send_all, fail),
        Err(Error::Fault(Fault::Serialization))
    );
    assert_eq!((a.io.started, a.io.committed), (1, 0));
    assert_eq!((a.tx_buffer.as_slice(), a.buffered_send), (&[7u8, 8, 0][..], None));
    assert_eq!(a.poll_complete(send_all), Ok(Async::Ready(())));
    assert!(a.io.packets.is_empty());
}

#[test]
fn packet_that_is_cut_off_is_an_error() {
    let mut a = BincodeDatagram::wrap(Wire::default(), 4);
    put_up(&mut a, &[1, 2, 3, 4]);
    let half = |_wire: &mut Wire, bytes: &[u8]| Attempt::Done(bytes.len() / 2);
    assert_eq!(a.poll_complete(half), Err(Error::Fault(Fault::PartialWrite)));
    assert_eq!(a.buffered_send, Some(4));
    let fail = |_wire: &mut Wire, _bytes: &[u8]| Attempt::Failed(Error::Os(32));
    assert_eq!(a.poll_complete(fail), Err(Error::Os(32)));
    assert_eq!(a.complete(Attempt::Done(4)), Ok(Async::Ready(())));
    assert_eq!(a.buffered_send, None);
}

#[test]
fn receiving_ends_when_the_other_side_is_gone() {
    let mut b = BincodeDatagram::wrap(Wire::default(), 4);
    assert_eq!(b.poll::<u32, Counting, _>(Attempt::Done(0), decode), Ok(Async::Ready(None)));
    assert_eq!(b.poll::<u32, Counting, _>(Attempt::WouldBlock, decode), Ok(Async::NotReady));
    assert_eq!(b.poll::<u32, Counting, _>(Attempt::Failed(Error::Os(9)), decode), Err(Error::Os(9)));
    assert_eq!(b.io.started, 0);
    assert_eq!(
        b.poll::<u32, Counting, _>(Attempt::Done(2), decode),
        Err(Error::Fault(Fault::Deserialization))
    );
    assert_eq!((b.io.started, b.io.committed), (1, 0));
}

#[test]
fn message_is_the_start_of_the_buffer() {
    let mut b = BincodeDatagram::wrap((), 4);
    b.rx_buffer = vec![1, 2, 3, 4];
    assert_eq!(b.message(Attempt::Done(2)), Ok(Async::Ready(Some(&[1u8, 2][..]))));
    assert_eq!(b.message(Attempt::Done(0)), Ok(Async::Ready(None)));
    assert_eq!(b.message(Attempt::WouldBlock), Ok(Async::NotReady));
    assert_eq!(b.message(Attempt::Failed(Error::Os(1))), Err(Error::Os(1)));
}
