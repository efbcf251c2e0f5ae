//! Sources of data that can be sent to other processes.

use crate::bytes::{copy, overwritten};
use crate::error::Error;
use crate::shm::{Access, SharedMemMap};
use std::ops::RangeFull;
use vstd::prelude::*;

verus! {

/// A file that can be sent to another process.
#[derive(PartialEq, Eq, Structural, Debug)]
pub struct SendableFile<B>(pub B);

/// A socket that can be sent to another process.
///
/// On Windows a socket that an event loop watches cannot be sent. The event loop can accept connections for
/// blocking sockets, which can be sent, and be watched where they arrive.
#[derive(PartialEq, Eq, Structural, Debug)]
pub struct SendableSocket<S>(pub S);

/// A source of data that can be sent to another process: a file, shared memory, or the data itself.
#[derive(Debug)]
pub enum SendableDataSource<F, M> {
    File(F),
    Memory(M),
    Inline(Vec<u8>),
}

/// Reads a source of data from its start to its end.
#[derive(Debug)]
pub enum SendableDataSourceReader<F> {
    File(F),
    /// Mapped memory, and how far it was read.
    Memory(SharedMemMap, usize),
    /// The data, and how far it was read.
    Inline(Vec<u8>, usize),
}

/// A source of data in memory.
#[derive(Debug)]
pub enum SendableDataSourceBytes {
    Vec(Vec<u8>),
    Shared(SharedMemMap),
}

/// The number of bytes that a read into a buffer of `room` bytes gives, at a place in data of `len` bytes.
pub open spec fn read_len(len: int, position: int, room: int) -> int {
    let left = if position <= len {
        len - position
    } else {
        0
    };
    if room <= left {
        room
    } else {
        left
    }
}

/// The bytes that a read into a buffer of `room` bytes gives, at a place in the data.
pub open spec fn read_bytes(data: Seq<u8>, position: int, room: int) -> Seq<u8> {
    if position <= data.len() {
        data.subrange(position, position + read_len(data.len() as int, position, room))
    } else {
        Seq::empty()
    }
}

impl<B> SendableFile<B> {
    /// The file itself.
    pub fn into_inner(self) -> (file: B)
        ensures
            file == self.0,
    {
        self.0
    }
}

impl<F, M> From<Vec<u8>> for SendableDataSource<F, M> {
    fn from(bytes: Vec<u8>) -> (source: Self) {
        SendableDataSource::Inline(bytes)
    }
}

impl<F, M> vstd::std_specs::convert::FromSpecImpl<Vec<u8>> for SendableDataSource<F, M> {
    open spec fn obeys_from_spec() -> bool {
        true
    }

    open spec fn from_spec(bytes: Vec<u8>) -> Self {
        SendableDataSource::Inline(bytes)
    }
}

impl<F, M> SendableDataSource<F, M> {
    /// A file as a source of data.
    pub fn from_file(file: F) -> (source: SendableDataSource<F, M>)
        ensures
            source == SendableDataSource::<F, M>::File(file),
    {
        SendableDataSource::File(file)
    }

    /// Gets ready to read the source piece by piece. `map` maps a range of shared memory.
    pub fn to_read<G>(self, map: G) -> (reader: Result<SendableDataSourceReader<F>, Error>) where
        G: FnOnce(M, RangeFull, Access) -> Result<SharedMemMap, Error>,

        requires
            self matches SendableDataSource::Memory(m) ==> map.requires((m, RangeFull, Access::Read)),
        ensures
            match self {
                SendableDataSource::File(file) => reader == Ok::<SendableDataSourceReader<F>, Error>(
                    SendableDataSourceReader::File(file),
                ),
                SendableDataSource::Memory(m) => match reader {
                    Ok(SendableDataSourceReader::Memory(memory, position)) => position == 0 && map.ensures(
                        (m, RangeFull, Access::Read),
                        Ok(memory),
                    ),
                    Ok(_) => false,
                    Err(e) => map.ensures((m, RangeFull, Access::Read), Err(e)),
                },
                SendableDataSource::Inline(bytes) => reader == Ok::<SendableDataSourceReader<F>, Error>(
                    SendableDataSourceReader::Inline(bytes, 0),
                ),
            },
    {
        match self {
            SendableDataSource::File(file) => Ok(SendableDataSourceReader::File(file)),
            SendableDataSource::Memory(memory) => match map(memory, RangeFull, Access::Read) {
                Ok(map) => Ok(SendableDataSourceReader::Memory(map, 0)),
                Err(e) => Err(e),
            },
            SendableDataSource::Inline(bytes) => Ok(SendableDataSourceReader::Inline(bytes, 0)),
        }
    }

    /// Brings the source into memory. A file is read whole, wherever it was read to before: `rewind` goes back to its
    /// start, if it has one, and `read_to_end` reads it from there to its end. `map` maps a range of shared memory.
    pub fn to_bytes<W, G, H>(self, rewind: W, read_to_end: G, map: H) -> (bytes: Result<
        SendableDataSourceBytes,
        Error,
    >) where
        W: FnOnce(&mut F),
        G: FnOnce(F) -> Result<Vec<u8>, Error>,
        H: FnOnce(M, RangeFull, Access) -> Result<SharedMemMap, Error>,

        requires
            forall|file: &mut F|
                self == SendableDataSource::<F, M>::File(*file) ==> #[trigger] rewind.requires((file,)),
            forall|file: &mut F| #[trigger] rewind.ensures((file,), ()) ==> read_to_end.requires((*final(file),)),
            self matches SendableDataSource::Memory(m) ==> map.requires((m, RangeFull, Access::Read)),
        ensures
            match self {
                SendableDataSource::File(source) => exists|file: &mut F| #[trigger]
                    rewind.ensures((file,), ()) && *file == source && match bytes {
                        Ok(SendableDataSourceBytes::Vec(v)) => read_to_end.ensures((*final(file),), Ok(v)),
                        Ok(_) => false,
                        Err(e) => read_to_end.ensures((*final(file),), Err(e)),
                    },
                SendableDataSource::Memory(m) => match bytes {
                    Ok(SendableDataSourceBytes::Shared(memory)) => map.ensures(
                        (m, RangeFull, Access::Read),
                        Ok(memory),
                    ),
                    Ok(_) => false,
                    Err(e) => map.ensures((m, RangeFull, Access::Read), Err(e)),
                },
                SendableDataSource::Inline(v) => bytes == Ok::<SendableDataSourceBytes, Error>(
                    SendableDataSourceBytes::Vec(v),
                ),
            },
    {
        match self {
            SendableDataSource::File(source) => {
                let mut file = source;
                rewind(&mut file);
                match read_to_end(file) {
                    Ok(buffer) => Ok(SendableDataSourceBytes::Vec(buffer)),
                    Err(e) => Err(e),
                }
            },
            SendableDataSource::Memory(memory) => match map(memory, RangeFull, Access::Read) {
                Ok(map) => Ok(SendableDataSourceBytes::Shared(map)),
                Err(e) => Err(e),
            },
            SendableDataSource::Inline(bytes) => Ok(SendableDataSourceBytes::Vec(bytes)),
        }
    }
}

/// Reads at a place in the data, and says how many bytes were read.
fn read_at(data: &[u8], position: usize, buffer: &mut [u8]) -> (count: usize)
    ensures
        count == read_len(data@.len() as int, position as int, old(buffer)@.len() as int),
        position + count <= usize::MAX,
        final(buffer)@ == overwritten(
            old(buffer)@,
            0,
            read_bytes(data@, position as int, old(buffer)@.len() as int),
        ),
{
    let left: usize = if position <= data.len() {
        data.len() - position
    } else {
        0
    };
    let room: usize = buffer.len();
    let count: usize = if room <= left {
        room
    } else {
        left
    };
    if count > 0 {
        copy(buffer, 0, data, position, count);
    } else {
        assert(overwritten(
            buffer@,
            0,
            read_bytes(data@, position as int, buffer@.len() as int),
        ) =~= buffer@);
    }
    count
}

impl<F> SendableDataSourceReader<F> {
    /// Reads the next bytes. `read_file` reads from a file, and `memory` are the bytes of the mapped memory,
    /// if there is any.
    pub fn read<G>(&mut self, buffer: &mut [u8], read_file: G, memory: &[u8]) -> (count: Result<usize, Error>) where
        G: FnOnce(&mut F, &mut [u8]) -> Result<usize, Error>,

        requires
            forall|file: &mut F, room: &mut [u8]|
                *old(self) == SendableDataSourceReader::File(*file) && room@ == old(buffer)@
                    ==> #[trigger] read_file.requires((file, room)),
            *old(self) matches SendableDataSourceReader::Memory(map, position) ==> memory@.len() == map.region.len
                && position <= map.region.len,
            *old(self) matches SendableDataSourceReader::Inline(bytes, position) ==> position <= bytes@.len(),
        ensures
            match *old(self) {
                SendableDataSourceReader::File(before) => exists|file: &mut F, room: &mut [u8]| #[trigger]
                    read_file.ensures((file, room), count) && *file == before && *final(self)
                        == SendableDataSourceReader::File(*final(file)) && room@ == old(buffer)@ && final(room)@
                        == final(buffer)@,
                SendableDataSourceReader::Memory(map, position) => {
                    &&& count matches Ok(n) && n == read_len(
                        memory@.len() as int,
                        position as int,
                        old(buffer)@.len() as int,
                    ) && *final(self) == SendableDataSourceReader::<F>::Memory(map, (position + n) as usize)
                    &&& final(buffer)@ == overwritten(
                        old(buffer)@,
                        0,
                        read_bytes(memory@, position as int, old(buffer)@.len() as int),
                    )
                },
                SendableDataSourceReader::Inline(bytes, position) => {
                    &&& count matches Ok(n) && n == read_len(
                        bytes@.len() as int,
                        position as int,
                        old(buffer)@.len() as int,
                    ) && *final(self) == SendableDataSourceReader::<F>::Inline(bytes, (position + n) as usize)
                    &&& final(buffer)@ == overwritten(
                        old(buffer)@,
                        0,
                        read_bytes(bytes@, position as int, old(buffer)@.len() as int),
                    )
                },
            },
    {
        match self {
            SendableDataSourceReader::File(file) => read_file(file, buffer),
            SendableDataSourceReader::Memory(_, position) => {
                let count: usize = read_at(memory, *position, buffer);
                *position = *position + count;
                Ok(count)
            },
            SendableDataSourceReader::Inline(bytes, position) => {
                let count: usize = read_at(bytes.as_slice(), *position, buffer);
                *position = *position + count;
                Ok(count)
            },
        }
    }
}

impl SendableDataSourceBytes {
    /// The bytes. `memory` are the bytes of the mapped memory, if there is any.
    pub fn deref<'a>(&'a self, memory: &'a [u8]) -> (bytes: &'a [u8])
        ensures
            bytes@ == match *self {
                SendableDataSourceBytes::Vec(v) => v@,
                SendableDataSourceBytes::Shared(_) => memory@,
            },
    {
        match self {
            SendableDataSourceBytes::Vec(bytes) => bytes.as_slice(),
            SendableDataSourceBytes::Shared(_) => memory,
        }
    }
}

/// Reading in pieces gives the same bytes as reading in one go.
pub proof fn reading_in_pieces(data: Seq<u8>, position: int, first: int, second: int)
    requires
        0 <= position <= data.len(),
        0 <= first,
        0 <= second,
    ensures
        ({
            let a = read_bytes(data, position, first);
            a + read_bytes(data, position + a.len(), second) == read_bytes(data, position, first + second)
        }),
{
    let a = read_bytes(data, position, first);
    assert(a + read_bytes(data, position + a.len(), second) =~= read_bytes(data, position, first + second));
}

/// Reading gives nothing just where the data is used up or there is no room, and a large enough buffer gets
/// all that is left.
pub proof fn reading_ends_with_the_data(data: Seq<u8>, position: int, room: int)
    requires
        0 <= position <= data.len(),
        0 <= room,
    ensures
        read_bytes(data, position, room).len() == 0 <==> position == data.len() || room == 0,
        data.len() - position <= room ==> read_bytes(data, position, room) == data.skip(position),
{
    if data.len() - position <= room {
        assert(read_bytes(data, position, room) =~= data.skip(position));
    }
}

} // verus!
