//! Messages over Mach ports.
//!
//! A message carries bytes and port rights. Its bytes have to come in groups of four, so what is sent is a
//! frame: the length of the data, the data, and zeros up to the next bound of four bytes.

use crate::bytes::{copy, overwritten};
use crate::error::{Error, Fault};
use crate::layout::USIZE_SIZE;
use crate::mach::word::{
    Endian, bytes_give_number_back, lemma_word_range, number_bytes, number_value, word_bytes,
    word_value,
};
use vstd::prelude::*;

verus! {

/// The number of bytes that the length of the inline data of a message is a multiple of.
pub const INLINE_DATA_UNIT: usize = 4;

/// How a right to a port is moved into a message.
#[derive(Clone, Copy, PartialEq, Eq, Structural, Debug)]
pub enum PortMoveMode {
    Receive,
    Send,
    SendOnce,
}

/// How a right to a port is copied into a message.
#[derive(Clone, Copy, PartialEq, Eq, Structural, Debug)]
pub enum PortCopyMode {
    Send,
    MakeSend,
    MakeSendOnce,
}

/// How a right to a port gets into a message.
#[derive(Clone, Copy, PartialEq, Eq, Structural, Debug)]
pub enum Right {
    Move(PortMoveMode),
    Copy(PortCopyMode),
}

/// What a message carries besides its bytes.
#[derive(Clone, Copy, PartialEq, Eq, Structural, Debug)]
pub enum Descriptor {
    /// A right to a port, until it is taken out.
    Port { right: Right, port: Option<u32> },
    /// Anything else.
    Other,
}

/// A message that is put together, or that was received.
#[derive(Debug)]
pub struct MsgBuffer {
    pub inline_data: Vec<u8>,
    pub descriptors: Vec<Descriptor>,
}

/// The number of zeros behind data of this length in a frame.
pub open spec fn padding(len: int) -> int {
    let over = (USIZE_SIZE + len) % INLINE_DATA_UNIT as int;
    if over == 0 {
        0
    } else {
        INLINE_DATA_UNIT - over
    }
}

/// The frame around data.
pub open spec fn framed(data: Seq<u8>, endian: Endian) -> Seq<u8> {
    number_bytes(data.len(), USIZE_SIZE as nat, endian) + data + Seq::new(
        padding(data.len() as int) as nat,
        |i: int| 0u8,
    )
}

/// The data in a frame, or why there is none.
pub open spec fn unframed(inline_data: Seq<u8>, endian: Endian) -> Result<Seq<u8>, Fault> {
    if inline_data.len() < USIZE_SIZE {
        Err(Fault::MessageTooShort)
    } else {
        let length = number_value(inline_data.take(USIZE_SIZE as int), endian);
        if inline_data.len() - USIZE_SIZE < length {
            Err(Fault::MessageLengthMismatch)
        } else {
            Ok(inline_data.subrange(USIZE_SIZE as int, USIZE_SIZE + length))
        }
    }
}

/// What is framed comes out of the frame as it went in, and a frame has a length that the operating system
/// takes.
pub proof fn frame_gives_data_back(data: Seq<u8>, endian: Endian)
    requires
        data.len() <= usize::MAX,
    ensures
        unframed(framed(data, endian), endian) == Ok::<Seq<u8>, Fault>(data),
        framed(data, endian).len() % INLINE_DATA_UNIT as nat == 0,
        framed(data, endian).len() < USIZE_SIZE + data.len() + INLINE_DATA_UNIT,
{
    lemma_word_range();
    bytes_give_number_back(data.len(), USIZE_SIZE as nat, endian);
    let frame = framed(data, endian);
    assert(frame.take(USIZE_SIZE as int) =~= number_bytes(data.len(), USIZE_SIZE as nat, endian));
    assert(frame.subrange(USIZE_SIZE as int, USIZE_SIZE + data.len()) =~= data);
}

impl MsgBuffer {
    /// A message without bytes and rights.
    pub fn new() -> (msg: MsgBuffer)
        ensures
            msg.inline_data@ == Seq::<u8>::empty(),
            msg.descriptors@ == Seq::<Descriptor>::empty(),
    {
        MsgBuffer { inline_data: Vec::new(), descriptors: Vec::new() }
    }

    /// Adds a right to a port that is given up for it.
    pub fn move_right(&mut self, mode: PortMoveMode, port: u32)
        ensures
            final(self).descriptors@ == old(self).descriptors@.push(
                Descriptor::Port { right: Right::Move(mode), port: Some(port) },
            ),
            final(self).inline_data == old(self).inline_data,
    {
        self.descriptors.push(Descriptor::Port { right: Right::Move(mode), port: Some(port) });
    }

    /// Adds a right to a port that is kept.
    pub fn copy_right(&mut self, mode: PortCopyMode, port: u32)
        ensures
            final(self).descriptors@ == old(self).descriptors@.push(
                Descriptor::Port { right: Right::Copy(mode), port: Some(port) },
            ),
            final(self).inline_data == old(self).inline_data,
    {
        self.descriptors.push(Descriptor::Port { right: Right::Copy(mode), port: Some(port) });
    }

    /// Adds bytes.
    pub fn extend_inline_data(&mut self, bytes: &[u8])
        ensures
            final(self).inline_data@ == old(self).inline_data@ + bytes@,
            final(self).descriptors == old(self).descriptors,
    {
        let ghost before = self.inline_data@;
        let ghost descriptors = self.descriptors;
        let mut i: usize = 0;
        while i < bytes.len()
            invariant
                i <= bytes@.len(),
                self.inline_data@ == before + bytes@.take(i as int),
                self.descriptors == descriptors,
            decreases bytes@.len() - i,
        {
            self.inline_data.push(bytes[i]);
            i = i + 1;
            assert(self.inline_data@ =~= before + bytes@.take(i as int));
        }
        assert(bytes@.take(bytes@.len() as int) =~= bytes@);
    }

    /// Puts data into a message without bytes, in a frame.
    pub fn finish(&mut self, buffer: &[u8], endian: Endian)
        requires
            old(self).inline_data@.len() == 0,
            USIZE_SIZE + buffer@.len() + INLINE_DATA_UNIT <= usize::MAX,
        ensures
            final(self).inline_data@ == framed(buffer@, endian),
            final(self).descriptors == old(self).descriptors,
    {
        let ghost descriptors = self.descriptors;
        let size: usize = buffer.len();
        let length = word_bytes(size, endian);
        self.extend_inline_data(length.as_slice());
        self.extend_inline_data(buffer);
        let over: usize = (USIZE_SIZE + size) % INLINE_DATA_UNIT;
        let pad: usize = match over {
            0 => 0,
            c => INLINE_DATA_UNIT - c,
        };
        let ghost unpadded = self.inline_data@;
        let mut i: usize = 0;
        while i < pad
            invariant
                i <= pad,
                self.inline_data@ == unpadded + Seq::new(i as nat, |k: int| 0u8),
                self.descriptors == descriptors,
            decreases pad - i,
        {
            self.inline_data.push(0);
            i = i + 1;
            assert(self.inline_data@ =~= unpadded + Seq::new(i as nat, |k: int| 0u8));
        }
        assert(self.inline_data@ =~= framed(buffer@, endian));
    }

    /// Takes the data out of the frame in a message that was received, and says how long it is.
    pub fn data(&self, buffer: &mut [u8], endian: Endian) -> (length: Result<usize, Error>)
        ensures
            match unframed(self.inline_data@, endian) {
                Err(fault) => length == Err::<usize, Error>(Error::Fault(fault)) && final(buffer)@ == old(buffer)@,
                Ok(data) => if old(buffer)@.len() < data.len() {
                    &&& length == Err::<usize, Error>(Error::Fault(Fault::BufferTooSmall))
                    &&& final(buffer)@ == old(buffer)@
                } else {
                    &&& length matches Ok(n) && n == data.len()
                    &&& final(buffer)@ == overwritten(old(buffer)@, 0, data)
                },
            },
    {
        if self.inline_data.len() < USIZE_SIZE {
            return Err(Error::Fault(Fault::MessageTooShort));
        }
        let len_bytes = vstd::slice::slice_subrange(self.inline_data.as_slice(), 0, USIZE_SIZE);
        assert(len_bytes@ =~= self.inline_data@.take(USIZE_SIZE as int));
        let length: usize = word_value(len_bytes, endian);
        if self.inline_data.len() - USIZE_SIZE < length {
            return Err(Error::Fault(Fault::MessageLengthMismatch));
        }
        if buffer.len() < length {
            return Err(Error::Fault(Fault::BufferTooSmall));
        }
        copy(buffer, 0, self.inline_data.as_slice(), USIZE_SIZE, length);
        Ok(length)
    }
}

/// The number of bytes that a message needs room for to carry data of up to this length.
pub fn inline_data_capacity(buffer_len: usize) -> (capacity: usize)
    requires
        USIZE_SIZE + buffer_len <= usize::MAX,
    ensures
        capacity == USIZE_SIZE + buffer_len,
{
    USIZE_SIZE + buffer_len
}

} // verus!
