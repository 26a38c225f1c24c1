//! A cursor over a byte buffer, and the decoding interface built on it.

use vstd::prelude::*;

verus! {

/// Why a buffer is not a record.
#[derive(Debug, Clone, Copy, PartialEq, Eq, Hash, Structural)]
pub enum DecodeError {
    /// The buffer ended inside a field.
    UnexpectedEof,
    /// The kind field holds a discriminant above 8.
    InvalidKind { discriminant: u8 },
    /// The operation field holds a discriminant above 3.
    InvalidOperation { discriminant: u8 },
    /// The record is neither 8 nor 9 bytes long.
    InvalidLength { found: usize },
}

/// Byte order of a multi-byte field.
#[derive(Debug, Clone, Copy, PartialEq, Eq, Hash, Structural)]
pub enum ByteOrder {
    LittleEndian,
    BigEndian,
}

impl ByteOrder {
    /// The value of four bytes read in this order.
    pub open spec fn spec_u32(self, bytes: Seq<u8>) -> int
        recommends
            bytes.len() == 4,
    {
        match self {
            ByteOrder::LittleEndian => bytes[0] + 0x100 * bytes[1] + 0x1_0000 * bytes[2]
                + 0x100_0000 * bytes[3],
            ByteOrder::BigEndian => bytes[3] + 0x100 * bytes[2] + 0x1_0000 * bytes[1] + 0x100_0000
                * bytes[0],
        }
    }
}

/// A position in a borrowed byte buffer. Decoding moves it forward.
#[derive(Debug, Clone, Copy)]
pub struct Reader<'a> {
    bytes: &'a [u8],
    position: usize,
}

impl<'a> Reader<'a> {
    /// The whole buffer, read and unread.
    pub closed spec fn buffer(&self) -> Seq<u8> {
        self.bytes@
    }

    /// How many bytes have been read.
    pub closed spec fn consumed(&self) -> nat {
        self.position as nat
    }

    /// The bytes not read yet.
    pub open spec fn remaining(&self) -> Seq<u8> {
        self.buffer().skip(self.consumed() as int)
    }

    /// Holds of every reader: the position lies inside the buffer.
    pub open spec fn wf(&self) -> bool {
        self.consumed() <= self.buffer().len()
    }

    /// This reader is `before` moved forward by `used` bytes.
    pub open spec fn advanced_from(&self, before: &Reader<'a>, used: nat) -> bool {
        &&& self.buffer() == before.buffer()
        &&& self.consumed() == before.consumed() + used
        &&& self.wf()
    }

    #[verifier::type_invariant]
    spec fn inv(&self) -> bool {
        self.position <= self.bytes@.len()
    }

    /// A reader at the start of `bytes`.
    pub fn new(bytes: &'a [u8]) -> (reader: Reader<'a>)
        ensures
            reader.buffer() == bytes@,
            reader.consumed() == 0,
            reader.remaining() == bytes@,
            reader.wf(),
    {
        Reader { bytes, position: 0 }
    }

    /// Number of bytes read so far.
    pub fn position(&self) -> (position: usize)
        ensures
            position == self.consumed(),
            self.wf(),
    {
        proof {
            use_type_invariant(self);
        }
        self.position
    }

    /// Number of bytes not read yet.
    pub fn remaining_len(&self) -> (len: usize)
        ensures
            len == self.remaining().len(),
            self.wf(),
    {
        proof {
            use_type_invariant(self);
        }
        self.bytes.len() - self.position
    }

    /// Reads one byte, or nothing when the buffer is exhausted.
    pub fn next_byte(&mut self) -> (byte: Option<u8>)
        ensures
            old(self).remaining().len() == 0 ==> byte is None && *final(self) == *old(self),
            old(self).remaining().len() > 0 ==> byte == Some(old(self).remaining()[0])
                && final(self).advanced_from(old(self), 1),
    {
        proof {
            use_type_invariant(&*self);
        }
        if self.position < self.bytes.len() {
            let byte = self.bytes[self.position];
            self.position = self.position + 1;
            Some(byte)
        } else {
            None
        }
    }
}

/// The relation between a decoding call and what the format prescribes:
/// on success the value is returned and the reader has moved past it, on
/// failure the error is returned and the reader has not moved.
pub open spec fn decodes<'a, T>(
    before: Reader<'a>,
    after: Reader<'a>,
    result: Result<T, DecodeError>,
    expected: Result<(T, nat), DecodeError>,
) -> bool {
    match expected {
        Ok((value, used)) => result == Ok::<T, DecodeError>(value) && after.advanced_from(
            &before,
            used,
        ),
        Err(error) => result == Err::<T, DecodeError>(error) && after == before,
    }
}

/// A value with a binary encoding that can be read from a buffer.
pub trait ReadFrom: Sized {
    type Error;

    /// Reads one value at the reader's position.
    fn read_from(reader: &mut Reader<'_>) -> Result<Self, Self::Error>;
}

/// One byte, as it stands.
pub open spec fn parse_u8(bytes: Seq<u8>) -> Result<(u8, nat), DecodeError> {
    if bytes.len() < 1 {
        Err(DecodeError::UnexpectedEof)
    } else {
        Ok((bytes[0], 1))
    }
}

/// One byte as a flag: zero is `false`, anything else `true`.
pub open spec fn parse_bool(bytes: Seq<u8>) -> Result<(bool, nat), DecodeError> {
    if bytes.len() < 1 {
        Err(DecodeError::UnexpectedEof)
    } else {
        Ok((bytes[0] != 0, 1))
    }
}

/// Four bytes as an unsigned number in the given byte order.
pub open spec fn parse_u32(bytes: Seq<u8>, order: ByteOrder) -> Result<(u32, nat), DecodeError> {
    if bytes.len() < 4 {
        Err(DecodeError::UnexpectedEof)
    } else {
        Ok((order.spec_u32(bytes.take(4)) as u32, 4))
    }
}

impl ReadFrom for u8 {
    type Error = DecodeError;

    fn read_from(reader: &mut Reader<'_>) -> (result: Result<u8, DecodeError>)
        ensures
            decodes(*old(reader), *final(reader), result, parse_u8(old(reader).remaining())),
    {
        match reader.next_byte() {
            Some(byte) => Ok(byte),
            None => Err(DecodeError::UnexpectedEof),
        }
    }
}

impl ReadFrom for bool {
    type Error = DecodeError;

    fn read_from(reader: &mut Reader<'_>) -> (result: Result<bool, DecodeError>)
        ensures
            decodes(*old(reader), *final(reader), result, parse_bool(old(reader).remaining())),
    {
        match u8::read_from(reader) {
            Ok(byte) => Ok(byte != 0),
            Err(error) => Err(error),
        }
    }
}

/// `u32::from_ne_bytes`: the number that four bytes stand for in the byte
/// order of the machine, which is the little-endian or the big-endian one.
#[verifier::external_body]
fn u32_from_ne_bytes(bytes: [u8; 4]) -> (value: u32)
    ensures
        value == ByteOrder::LittleEndian.spec_u32(bytes@) || value
            == ByteOrder::BigEndian.spec_u32(bytes@),
{
    u32::from_ne_bytes(bytes)
}

impl ReadFrom for u32 {
    type Error = DecodeError;

    /// Reads four bytes in the byte order of the machine.
    fn read_from(reader: &mut Reader<'_>) -> (result: Result<u32, DecodeError>)
        ensures
            decodes(
                *old(reader),
                *final(reader),
                result,
                parse_u32(old(reader).remaining(), ByteOrder::LittleEndian),
            ) || decodes(
                *old(reader),
                *final(reader),
                result,
                parse_u32(old(reader).remaining(), ByteOrder::BigEndian),
            ),
    {
        let start = *reader;
        if reader.remaining_len() < 4 {
            return Err(DecodeError::UnexpectedEof);
        }
        let mut bytes = [0u8; 4];
        let mut i: usize = 0;
        while i < 4
            invariant
                i <= 4,
                reader.advanced_from(&start, i as nat),
                start.remaining().len() >= 4,
                forall|j: int| 0 <= j < i ==> bytes@[j] == start.remaining()[j],
            decreases 4 - i,
        {
            match reader.next_byte() {
                Some(byte) => {
                    bytes[i] = byte;
                },
                None => {
                    assert(false);
                },
            }
            i = i + 1;
        }
        Ok(u32_from_ne_bytes(bytes))
    }
}

} // verus!
