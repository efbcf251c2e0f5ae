use sandbox_ipc::error::{Error, Fault};
use sandbox_ipc::resource_channel::{Channel, CHANNEL_MSG_DEFAULT_BUFFER_LEN, CHANNEL_MSG_MAX_RESOURCES};
use std::cell::RefCell;

/// A message with its resources.
type Sent = (Vec<u32>, Vec<u8>);

fn start(_inner: &u8) -> Result<Vec<u32>, Error> {
    Ok(Vec::new())
}

#[test]
fn channel_starts_with_default_sizes() {
    let mut channel = Channel::from_raw(1u8).unwrap();
    assert_eq!(channel.recv_buffer_len(), 4096);
    assert_eq!(CHANNEL_MSG_DEFAULT_BUFFER_LEN, 4096);
    channel.set_recv_buffer_len(10);
    let other = channel.clone_with(2u8);
    assert_eq!((other.inner, other.recv_buffer_len()), (2, 10));
    assert!(other.buffer.is_empty());
}

#[test]
fn message_is_sent_with_its_resources() {
    let sent: RefCell<Vec<Sent>> = RefCell::new(Vec::new());
    let mut channel = Channel::from_raw(1u8).unwrap();
    let serialize = |sender: &mut Vec<u32>, buffer: &mut Vec<u8>| {
        sender.push(77);
        bincode::serialize_into(buffer, &(0u32, "text")).is_ok()
    };
    let finish = |sender: Vec<u32>, bytes: &[u8]| {
        sent.borrow_mut().push((sender, bytes.to_vec()));
        Ok(())
    };
    assert_eq!(channel.send(start, serialize, finish), Ok(()));
    assert!(channel.buffer.is_empty());
    let (resources, bytes) = sent.borrow_mut().pop().unwrap();
    assert_eq!(resources, vec![77]);

    channel.set_recv_buffer_len(64);
    let receive = |_inner: &u8, max_resources: usize, room: &mut [u8]| {
        assert_eq!(max_resources, CHANNEL_MSG_MAX_RESOURCES);
        assert_eq!(room.len(), 64);
        room[..bytes.len()].copy_from_slice(&bytes);
        Ok((vec![77u32], bytes.len()))
    };
    let deserialize = |resources: Vec<u32>, data: &[u8]| {
        let (index, text): (u32, String) = bincode::deserialize(data).ok()?;
        Some((resources[index as usize], text))
    };
    assert_eq!(channel.recv(receive, deserialize), Ok((77, "text".to_string())));
    assert!(channel.buffer.is_empty());
}

#[test]
fn sending_fails_where_a_part_of_it_does() {
    let mut channel = Channel::from_raw(1u8).unwrap();
    let cannot_start = |_inner: &u8| Err::<Vec<u32>, Error>(Error::Fault(Fault::NoResourceTransmission));
    let serialize = |_sender: &mut Vec<u32>, buffer: &mut Vec<u8>| {
        buffer.push(1u8);
        true
    };
    let finish = |_sender: Vec<u32>, _bytes: &[u8]| Ok(());
    assert_eq!(
        channel.send(cannot_start, serialize, finish),
        Err(Error::Fault(Fault::NoResourceTransmission))
    );
    assert!(channel.buffer.is_empty());
    let cannot_serialize = |_sender: &mut Vec<u32>, buffer: &mut Vec<u8>| {
        buffer.extend_from_slice(&[7, 8]);
        false
    };
    let never = |_sender: Vec<u32>, _bytes: &[u8]| -> Result<(), Error> { panic!("sent") };
    assert_eq!(channel.send(start, cannot_serialize, never), Err(Error::Fault(Fault::Serialization)));
    assert_eq!(channel.buffer, vec![7, 8]);
    let mut channel = Channel::from_raw(1u8).unwrap();
    let cannot_finish = |_sender: Vec<u32>, _bytes: &[u8]| Err(Error::Os(32));
    assert_eq!(channel.send(start, serialize, cannot_finish), Err(Error::Os(32)));
    assert_eq!(channel.buffer, vec![1]);
}

#[test]
fn receiving_fails_where_a_part_of_it_does() {
    let mut channel = Channel::from_raw(1u8).unwrap();
    let cannot_receive =
        |_inner: &u8, _max: usize, _room: &mut [u8]| Err::<((), usize), Error>(Error::Os(4));
    let deserialize = |_resources: (), _data: &[u8]| Some(5u8);
    assert_eq!(channel.recv(cannot_receive, deserialize), Err(Error::Os(4)));

    let mut channel = Channel::from_raw(1u8).unwrap();
    let receive = |_inner: &u8, _max: usize, _room: &mut [u8]| Ok(((), 3));
    let cannot_deserialize = |_resources: (), data: &[u8]| {
        assert_eq!(data.len(), 3);
        None::<u8>
    };
    assert_eq!(channel.recv(receive, cannot_deserialize), Err(Error::Fault(Fault::Serialization)));
}
