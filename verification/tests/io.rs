use sandbox_ipc::error::Error;
use sandbox_ipc::io::{
    SendableDataSource, SendableDataSourceBytes, SendableDataSourceReader, SendableFile,
};
use sandbox_ipc::shm::{Access, Region, SharedMemMap};
use std::io::{Cursor, Read};
use std::ops::RangeFull;

const MAP: SharedMemMap =
    SharedMemMap { region: Region { pointer: 4096, len: 5, offset: 0, access: Access::Read }, token: 1 };

fn map_whole(memory: u8, _range: RangeFull, access: Access) -> Result<SharedMemMap, Error> {
    assert_eq!(memory, 7);
    assert_eq!(access, Access::Read);
    Ok(MAP)
}

fn map_nothing(_memory: u8, _range: RangeFull, _access: Access) -> Result<SharedMemMap, Error> {
    Err(Error::Os(12))
}

fn read_file(file: &mut Vec<u8>, buffer: &mut [u8]) -> Result<usize, Error> {
    let count = file.len().min(buffer.len());
    buffer[..count].copy_from_slice(&file[..count]);
    file.drain(..count);
    Ok(count)
}

fn read_to_end(file: Vec<u8>) -> Result<Vec<u8>, Error> {
    Ok(file)
}

fn rewind(_file: &mut Vec<u8>) {}

type Source = SendableDataSource<Vec<u8>, u8>;

#[test]
fn inline_data_is_read_in_pieces() {
    let mut reader = Source::from(b"hello".to_vec()).to_read(map_nothing).unwrap();
    let mut buffer = [0u8; 3];
    assert_eq!(reader.read(&mut buffer, read_file, &[]), Ok(3));
    assert_eq!(&buffer, b"hel");
    assert_eq!(reader.read(&mut buffer, read_file, &[]), Ok(2));
    assert_eq!(&buffer, b"lol");
    assert_eq!(reader.read(&mut buffer, read_file, &[]), Ok(0));
    assert_eq!(&buffer, b"lol");
}

#[test]
fn shared_memory_is_read_to_its_end() {
    let mut reader = Source::Memory(7).to_read(map_whole).unwrap();
    let mut buffer = [0u8; 8];
    assert_eq!(reader.read(&mut buffer, read_file, b"world"), Ok(5));
    assert_eq!(&buffer, b"world\0\0\0");
    assert!(matches!(reader, SendableDataSourceReader::Memory(MAP, 5)));
    assert_eq!(reader.read(&mut buffer, read_file, b"world"), Ok(0));
}

#[test]
fn file_reads_itself() {
    let mut reader = Source::from_file(b"abc".to_vec()).to_read(map_nothing).unwrap();
    let mut buffer = [0u8; 2];
    assert_eq!(reader.read(&mut buffer, read_file, &[]), Ok(2));
    assert_eq!(&buffer, b"ab");
    assert!(matches!(reader, SendableDataSourceReader::File(ref rest) if rest == b"c"));
}

#[test]
fn memory_that_cannot_be_mapped_is_an_error() {
    assert!(matches!(Source::Memory(7).to_read(map_nothing), Err(Error::Os(12))));
    assert!(matches!(Source::Memory(7).to_bytes(rewind, read_to_end, map_nothing), Err(Error::Os(12))));
}

#[test]
fn sources_are_brought_into_memory() {
    let inline = Source::from(b"in".to_vec()).to_bytes(rewind, read_to_end, map_nothing).unwrap();
    assert_eq!(inline.deref(&[]), b"in");
    let file = Source::from_file(b"file".to_vec()).to_bytes(rewind, read_to_end, map_nothing).unwrap();
    assert_eq!(file.deref(&[]), b"file");
    let shared = Source::Memory(7).to_bytes(rewind, read_to_end, map_whole).unwrap();
    assert!(matches!(shared, SendableDataSourceBytes::Shared(MAP)));
    assert_eq!(shared.deref(b"world"), b"world");
    let unreadable = |_file: Vec<u8>| Err::<Vec<u8>, Error>(Error::Os(5));
    assert!(matches!(Source::from_file(Vec::new()).to_bytes(rewind, unreadable, map_whole), Err(Error::Os(5))));
}

#[test]
fn file_is_brought_into_memory_whole() {
    let mut file = Cursor::new(b"entire".to_vec());
    file.set_position(3);
    let read_to_end = |mut file: Cursor<Vec<u8>>| {
        let mut bytes = Vec::new();
        file.read_to_end(&mut bytes).map(|_| bytes).map_err(|_| Error::Os(5))
    };
    let source = SendableDataSource::<Cursor<Vec<u8>>, u8>::from_file(file);
    let bytes = source.to_bytes(|file: &mut Cursor<Vec<u8>>| file.set_position(0), read_to_end, map_nothing);
    assert_eq!(bytes.unwrap().deref(&[]), b"entire");
}

#[test]
fn sendable_file_gives_its_file_back() {
    assert_eq!(SendableFile("file").into_inner(), "file");
}
