//! Value types of the rfkill wire format: device kinds, operations, block
//! flags and the hard-block reason mask.

use crate::reader::{decodes, parse_u32, ByteOrder, DecodeError, ReadFrom, Reader};
use vstd::prelude::*;

verus! {

/// Class of a radio device.
#[derive(Debug, Clone, Copy, PartialEq, Eq, Hash, Structural)]
pub enum Kind {
    /// Wildcard that addresses every device.
    All,
    WirelessLan,
    Bluetooth,
    UltraWideBand,
    WiMax,
    WirelessWan,
    Gps,
    Fm,
    Nfc,
}

impl Kind {
    /// The wire discriminant of a kind.
    pub open spec fn spec_to_u8(self) -> u8 {
        match self {
            Kind::All => 0,
            Kind::WirelessLan => 1,
            Kind::Bluetooth => 2,
            Kind::UltraWideBand => 3,
            Kind::WiMax => 4,
            Kind::WirelessWan => 5,
            Kind::Gps => 6,
            Kind::Fm => 7,
            Kind::Nfc => 8,
        }
    }

    /// The kind that a wire discriminant stands for, if there is one.
    pub open spec fn spec_from_u8(value: u8) -> Option<Kind> {
        if value == 0 {
            Some(Kind::All)
        } else if value == 1 {
            Some(Kind::WirelessLan)
        } else if value == 2 {
            Some(Kind::Bluetooth)
        } else if value == 3 {
            Some(Kind::UltraWideBand)
        } else if value == 4 {
            Some(Kind::WiMax)
        } else if value == 5 {
            Some(Kind::WirelessWan)
        } else if value == 6 {
            Some(Kind::Gps)
        } else if value == 7 {
            Some(Kind::Fm)
        } else if value == 8 {
            Some(Kind::Nfc)
        } else {
            None
        }
    }

    /// Decodes a wire discriminant; values above 8 stand for no kind.
    pub fn from_u8(value: u8) -> (kind: Option<Kind>)
        ensures
            kind == Kind::spec_from_u8(value),
            kind is Some <==> value <= 8,
            kind matches Some(k) ==> k.spec_to_u8() == value,
    {
        let kind = match value {
            0 => Kind::All,
            1 => Kind::WirelessLan,
            2 => Kind::Bluetooth,
            3 => Kind::UltraWideBand,
            4 => Kind::WiMax,
            5 => Kind::WirelessWan,
            6 => Kind::Gps,
            7 => Kind::Fm,
            8 => Kind::Nfc,
            _ => return None,
        };
        Some(kind)
    }

    /// Encodes a kind as its wire discriminant.
    pub fn to_u8(&self) -> (value: u8)
        ensures
            value == self.spec_to_u8(),
            value <= 8,
    {
        match self {
            Kind::All => 0,
            Kind::WirelessLan => 1,
            Kind::Bluetooth => 2,
            Kind::UltraWideBand => 3,
            Kind::WiMax => 4,
            Kind::WirelessWan => 5,
            Kind::Gps => 6,
            Kind::Fm => 7,
            Kind::Nfc => 8,
        }
    }

    /// Encoding a kind and decoding the discriminant gives the kind back.
    pub proof fn lemma_encode_decode(kind: Kind)
        ensures
            kind.spec_to_u8() <= 8,
            Kind::spec_from_u8(kind.spec_to_u8()) == Some(kind),
    {
    }

    /// A discriminant decodes exactly when it is at most 8, and then encodes
    /// to itself.
    pub proof fn lemma_decode_encode(value: u8)
        ensures
            value <= 8 <==> Kind::spec_from_u8(value) is Some,
            Kind::spec_from_u8(value) matches Some(kind) ==> kind.spec_to_u8() == value,
    {
    }
}

impl Kind {
    /// One byte as a kind.
    pub open spec fn parse(bytes: Seq<u8>) -> Result<(Kind, nat), DecodeError> {
        if bytes.len() < 1 {
            Err(DecodeError::UnexpectedEof)
        } else {
            match Kind::spec_from_u8(bytes[0]) {
                Some(kind) => Ok((kind, 1)),
                None => Err(DecodeError::InvalidKind { discriminant: bytes[0] }),
            }
        }
    }
}

impl ReadFrom for Kind {
    type Error = DecodeError;

    fn read_from(reader: &mut Reader<'_>) -> (result: Result<Kind, DecodeError>)
        ensures
            decodes(*old(reader), *final(reader), result, Kind::parse(old(reader).remaining())),
    {
        let start = *reader;
        let byte = match u8::read_from(reader) {
            Ok(byte) => byte,
            Err(error) => return Err(error),
        };
        match Kind::from_u8(byte) {
            Some(kind) => Ok(kind),
            None => {
                *reader = start;
                Err(DecodeError::InvalidKind { discriminant: byte })
            },
        }
    }
}

/// What an event reports about a device.
#[derive(Debug, Clone, Copy, PartialEq, Eq, Hash, Structural)]
pub enum Operation {
    Add,
    Delete,
    /// A change of block state; `all` is set when the change was broadcast to
    /// every device rather than addressed to one.
    Change { all: bool },
}

impl Operation {
    /// The wire discriminant of an operation.
    pub open spec fn spec_to_u8(self) -> u8 {
        match self {
            Operation::Add => 0,
            Operation::Delete => 1,
            Operation::Change { all } => if all { 3 } else { 2 },
        }
    }

    /// The operation that a wire discriminant stands for, if there is one.
    pub open spec fn spec_from_u8(value: u8) -> Option<Operation> {
        if value == 0 {
            Some(Operation::Add)
        } else if value == 1 {
            Some(Operation::Delete)
        } else if value == 2 {
            Some(Operation::Change { all: false })
        } else if value == 3 {
            Some(Operation::Change { all: true })
        } else {
            None
        }
    }

    /// Decodes a wire discriminant; values above 3 stand for no operation.
    pub fn from_u8(value: u8) -> (operation: Option<Operation>)
        ensures
            operation == Operation::spec_from_u8(value),
            operation is Some <==> value <= 3,
            operation matches Some(op) ==> op.spec_to_u8() == value,
    {
        let operation = match value {
            0 => Operation::Add,
            1 => Operation::Delete,
            2 => Operation::Change { all: false },
            3 => Operation::Change { all: true },
            _ => return None,
        };
        Some(operation)
    }

    /// Encodes an operation as its wire discriminant.
    pub fn to_u8(&self) -> (value: u8)
        ensures
            value == self.spec_to_u8(),
            value <= 3,
    {
        match self {
            Operation::Add => 0,
            Operation::Delete => 1,
            Operation::Change { all: false } => 2,
            Operation::Change { all: true } => 3,
        }
    }

    /// Encoding an operation and decoding the discriminant gives the
    /// operation back.
    pub proof fn lemma_encode_decode(operation: Operation)
        ensures
            operation.spec_to_u8() <= 3,
            Operation::spec_from_u8(operation.spec_to_u8()) == Some(operation),
    {
    }
}

impl Operation {
    /// One byte as an operation.
    pub open spec fn parse(bytes: Seq<u8>) -> Result<(Operation, nat), DecodeError> {
        if bytes.len() < 1 {
            Err(DecodeError::UnexpectedEof)
        } else {
            match Operation::spec_from_u8(bytes[0]) {
                Some(operation) => Ok((operation, 1)),
                None => Err(DecodeError::InvalidOperation { discriminant: bytes[0] }),
            }
        }
    }
}

impl ReadFrom for Operation {
    type Error = DecodeError;

    fn read_from(reader: &mut Reader<'_>) -> (result: Result<Operation, DecodeError>)
        ensures
            decodes(
                *old(reader),
                *final(reader),
                result,
                Operation::parse(old(reader).remaining()),
            ),
    {
        let start = *reader;
        let byte = match u8::read_from(reader) {
            Ok(byte) => byte,
            Err(error) => return Err(error),
        };
        match Operation::from_u8(byte) {
            Some(operation) => Ok(operation),
            None => {
                *reader = start;
                Err(DecodeError::InvalidOperation { discriminant: byte })
            },
        }
    }
}

/// Why a device is hard-blocked: a mask of eight bits of which two are named.
/// A mask never holds a bit without a name.
#[derive(Debug, Clone, Copy, PartialEq, Eq, Hash, Structural)]
pub struct HardBlockReasons {
    bits: u8,
}

impl View for HardBlockReasons {
    type V = u8;

    closed spec fn view(&self) -> u8 {
        self.bits
    }
}

impl HardBlockReasons {
    /// Bit set when a hardware signal blocks the device.
    pub const SIGNAL: u8 = 1;

    /// Bit set when another owner holds the device.
    pub const NOT_OWNER: u8 = 2;

    /// Every bit that has a name.
    pub const ALL: u8 = 3;

    /// The bits of `bits` that have a name.
    pub open spec fn truncate(bits: u8) -> u8 {
        bits & Self::ALL
    }

    /// The mask that holds the named bits of `bits`.
    pub closed spec fn spec_from_bits_truncate(bits: u8) -> HardBlockReasons {
        HardBlockReasons { bits: bits & Self::ALL }
    }

    /// One byte as a mask; bits without a name are dropped.
    pub open spec fn parse(bytes: Seq<u8>) -> Result<(HardBlockReasons, nat), DecodeError> {
        if bytes.len() < 1 {
            Err(DecodeError::UnexpectedEof)
        } else {
            Ok((Self::spec_from_bits_truncate(bytes[0]), 1))
        }
    }

    /// Whether the mask holds every bit of `bits`.
    pub open spec fn spec_contains(self, bits: u8) -> bool {
        self@ & bits == bits
    }

    /// Whether the mask shares a bit with `bits`.
    pub open spec fn spec_intersects(self, bits: u8) -> bool {
        self@ & bits != 0
    }

    /// Holds of every mask: no bit is set beyond the named ones.
    pub open spec fn wf(self) -> bool {
        self@ & Self::ALL == self@
    }

    #[verifier::type_invariant]
    spec fn inv(self) -> bool {
        self.bits & Self::ALL == self.bits
    }

    /// The mask with no bit set.
    pub fn empty() -> (mask: HardBlockReasons)
        ensures
            mask@ == 0,
            mask.wf(),
    {
        assert(0u8 & 3 == 0) by (bit_vector);
        HardBlockReasons { bits: 0 }
    }

    /// The mask of the hardware signal alone.
    pub fn signal() -> (mask: HardBlockReasons)
        ensures
            mask@ == Self::SIGNAL,
            mask.wf(),
    {
        assert(1u8 & 3 == 1) by (bit_vector);
        HardBlockReasons { bits: Self::SIGNAL }
    }

    /// The mask of the foreign owner alone.
    pub fn not_owner() -> (mask: HardBlockReasons)
        ensures
            mask@ == Self::NOT_OWNER,
            mask.wf(),
    {
        assert(2u8 & 3 == 2) by (bit_vector);
        HardBlockReasons { bits: Self::NOT_OWNER }
    }

    /// Builds a mask from raw bits and drops the bits that have no name.
    pub fn from_bits_truncate(bits: u8) -> (mask: HardBlockReasons)
        ensures
            mask == Self::spec_from_bits_truncate(bits),
            mask@ == Self::truncate(bits),
            mask.wf(),
    {
        assert((bits & 3) & 3 == bits & 3) by (bit_vector);
        HardBlockReasons { bits: bits & Self::ALL }
    }

    /// Builds a mask from raw bits, unless a bit without a name is set.
    pub fn from_bits(bits: u8) -> (mask: Option<HardBlockReasons>)
        ensures
            mask is Some <==> Self::truncate(bits) == bits,
            mask matches Some(m) ==> m@ == bits && m.wf(),
    {
        if bits & Self::ALL == bits {
            Some(HardBlockReasons { bits })
        } else {
            None
        }
    }

    /// The raw bits of the mask.
    pub fn bits(&self) -> (bits: u8)
        ensures
            bits == self@,
            self.wf(),
    {
        proof {
            use_type_invariant(self);
        }
        self.bits
    }

    /// Whether no bit is set.
    pub fn is_empty(&self) -> (empty: bool)
        ensures
            empty == (self@ == 0),
    {
        self.bits == 0
    }

    /// Whether every bit of `other` is set in this mask.
    pub fn contains(&self, other: HardBlockReasons) -> (held: bool)
        ensures
            held == self.spec_contains(other@),
    {
        self.bits & other.bits == other.bits
    }

    /// Whether this mask and `other` share a bit.
    pub fn intersects(&self, other: HardBlockReasons) -> (shared: bool)
        ensures
            shared == self.spec_intersects(other@),
    {
        self.bits & other.bits != 0
    }

    /// Whether a hardware signal blocks the device.
    pub fn is_signal(&self) -> (set: bool)
        ensures
            set == self.spec_contains(Self::SIGNAL),
    {
        self.bits & Self::SIGNAL == Self::SIGNAL
    }

    /// Whether another owner holds the device.
    pub fn is_not_owner(&self) -> (set: bool)
        ensures
            set == self.spec_contains(Self::NOT_OWNER),
    {
        self.bits & Self::NOT_OWNER == Self::NOT_OWNER
    }

    /// A mask is its bits: two masks with the same bits are the same mask, and
    /// the mask built from raw bits holds their named part.
    pub proof fn lemma_mask_is_bits(a: HardBlockReasons, b: HardBlockReasons, bits: u8)
        ensures
            a@ == b@ <==> a == b,
            Self::spec_from_bits_truncate(bits)@ == Self::truncate(bits),
            Self::spec_from_bits_truncate(bits).wf(),
    {
        assert((bits & 3) & 3 == bits & 3) by (bit_vector);
    }

    /// Truncation keeps named bits, clears the others and changes nothing
    /// when applied again.
    pub proof fn lemma_truncate(bits: u8)
        ensures
            Self::truncate(bits) <= Self::ALL,
            Self::truncate(bits) & Self::ALL == Self::truncate(bits),
            Self::truncate(bits) & Self::SIGNAL == bits & Self::SIGNAL,
            Self::truncate(bits) & Self::NOT_OWNER == bits & Self::NOT_OWNER,
            Self::truncate(0xff) == 0b0000_0011,
    {
        assert(bits & 3 <= 3) by (bit_vector);
        assert((bits & 3) & 3 == bits & 3) by (bit_vector);
        assert((bits & 3) & 1 == bits & 1) by (bit_vector);
        assert((bits & 3) & 2 == bits & 2) by (bit_vector);
        assert(0xffu8 & 3 == 3) by (bit_vector);
    }
}

impl ReadFrom for HardBlockReasons {
    type Error = DecodeError;

    fn read_from(reader: &mut Reader<'_>) -> (result: Result<HardBlockReasons, DecodeError>)
        ensures
            decodes(
                *old(reader),
                *final(reader),
                result,
                HardBlockReasons::parse(old(reader).remaining()),
            ),
    {
        match u8::read_from(reader) {
            Ok(byte) => Ok(HardBlockReasons::from_bits_truncate(byte)),
            Err(error) => Err(error),
        }
    }
}

/// Block condition as an event reports it.
#[derive(Debug, Clone, Copy, PartialEq, Eq, Hash, Structural)]
pub struct Block {
    /// Whether software blocks the device.
    pub soft: bool,
    /// Why hardware blocks the device; `None` when it does not.
    pub hard: Option<HardBlockReasons>,
}

impl Block {
    pub fn new(soft: bool, hard: Option<HardBlockReasons>) -> (block: Block)
        ensures
            block == (Block { soft, hard }),
    {
        Block { soft, hard }
    }

    /// Whether hardware blocks the device.
    pub fn hard(&self) -> (hard: bool)
        ensures
            hard == self.hard.is_some(),
    {
        self.hard.is_some()
    }

    /// Why hardware blocks the device, if it does.
    pub fn hard_block_reasons(&self) -> (reasons: Option<HardBlockReasons>)
        ensures
            reasons == self.hard,
    {
        self.hard
    }

    /// The soft flag, the hard flag and, only behind a hard flag that is not
    /// zero, the byte of reasons.
    pub open spec fn parse(bytes: Seq<u8>) -> Result<(Block, nat), DecodeError> {
        if bytes.len() < 2 {
            Err(DecodeError::UnexpectedEof)
        } else if bytes[1] == 0 {
            Ok((Block { soft: bytes[0] != 0, hard: None }, 2))
        } else if bytes.len() < 3 {
            Err(DecodeError::UnexpectedEof)
        } else {
            Ok(
                (
                    Block {
                        soft: bytes[0] != 0,
                        hard: Some(HardBlockReasons::spec_from_bits_truncate(bytes[2])),
                    },
                    3,
                ),
            )
        }
    }
}

impl ReadFrom for Block {
    type Error = DecodeError;

    fn read_from(reader: &mut Reader<'_>) -> (result: Result<Block, DecodeError>)
        ensures
            decodes(*old(reader), *final(reader), result, Block::parse(old(reader).remaining())),
    {
        let start = *reader;
        let soft = match bool::read_from(reader) {
            Ok(soft) => soft,
            Err(error) => return Err(error),
        };
        let hard = match bool::read_from(reader) {
            Ok(hard) => hard,
            Err(error) => {
                *reader = start;
                return Err(error);
            },
        };
        let hard = if hard {
            match HardBlockReasons::read_from(reader) {
                Ok(reasons) => Some(reasons),
                Err(error) => {
                    *reader = start;
                    return Err(error);
                },
            }
        } else {
            None
        };
        Ok(Block::new(soft, hard))
    }
}

/// One record of the event stream.
#[derive(Debug, Clone, Copy, PartialEq, Eq, Hash, Structural)]
pub struct Event {
    /// Identity of the device, stable while the device exists.
    pub index: usize,
    pub kind: Kind,
    pub operation: Operation,
    pub block: Block,
}

impl Event {
    /// Length of the longest record: index, kind, operation, soft flag, hard
    /// flag and reasons.
    pub const SIZE: usize = 9;

    /// The fields behind an index that has been read already: kind,
    /// operation and block.
    pub open spec fn parse_fields(index: u32, bytes: Seq<u8>) -> Result<(Event, nat), DecodeError> {
        match Kind::parse(bytes) {
            Err(error) => Err(error),
            Ok((kind, _)) => match Operation::parse(bytes.skip(1)) {
                Err(error) => Err(error),
                Ok((operation, _)) => match Block::parse(bytes.skip(2)) {
                    Err(error) => Err(error),
                    Ok((block, used)) => Ok(
                        (Event { index: index as usize, kind, operation, block }, 2 + used),
                    ),
                },
            },
        }
    }

    /// A whole record on a machine of the given byte order.
    pub open spec fn parse(bytes: Seq<u8>, order: ByteOrder) -> Result<(Event, nat), DecodeError> {
        match parse_u32(bytes, order) {
            Err(error) => Err(error),
            Ok((index, _)) => match Self::parse_fields(index, bytes.skip(4)) {
                Err(error) => Err(error),
                Ok((event, used)) => Ok((event, 4 + used)),
            },
        }
    }

    /// Reads the fields that follow the index and builds the event of the
    /// given index from them.
    pub fn read_fields(index: u32, reader: &mut Reader<'_>) -> (result: Result<Event, DecodeError>)
        ensures
            decodes(
                *old(reader),
                *final(reader),
                result,
                Event::parse_fields(index, old(reader).remaining()),
            ),
    {
        let start = *reader;
        let kind = match Kind::read_from(reader) {
            Ok(kind) => kind,
            Err(error) => return Err(error),
        };
        let operation = match Operation::read_from(reader) {
            Ok(operation) => operation,
            Err(error) => {
                *reader = start;
                return Err(error);
            },
        };
        let block = match Block::read_from(reader) {
            Ok(block) => block,
            Err(error) => {
                *reader = start;
                return Err(error);
            },
        };
        Ok(Event { index: index as usize, kind, operation, block })
    }

    /// Whether a buffer has the length of a record and valid discriminants
    /// of kind and operation.
    pub open spec fn well_formed(bytes: Seq<u8>) -> bool {
        &&& bytes.len() == 8 || bytes.len() == 9
        &&& bytes[4] <= 8
        &&& bytes[5] <= 3
    }

    /// A buffer taken as one whole record: its length is checked before any
    /// field is looked at.
    pub open spec fn decoded(bytes: Seq<u8>, order: ByteOrder) -> Result<Event, DecodeError> {
        if bytes.len() != 8 && bytes.len() != 9 {
            Err(DecodeError::InvalidLength { found: bytes.len() as usize })
        } else {
            match Self::parse(bytes, order) {
                Ok((event, _)) => Ok(event),
                Err(error) => Err(error),
            }
        }
    }

    /// Decodes a buffer that holds exactly one record. A buffer that is not 8
    /// or 9 bytes long is rejected for its length, whatever it holds.
    pub fn decode(record: &[u8]) -> (result: Result<Event, DecodeError>)
        ensures
            result == Event::decoded(record@, ByteOrder::LittleEndian) || result == Event::decoded(
                record@,
                ByteOrder::BigEndian,
            ),
            record@.len() != 8 && record@.len() != 9 ==> result == Err::<Event, DecodeError>(
                DecodeError::InvalidLength { found: record.len() },
            ),
            Event::well_formed(record@) && record@[7] == 0 ==> (result matches Ok(event)
                && event.block.hard is None),
            Event::well_formed(record@) && record@[7] != 0 && record@.len() == 9 ==> (
            result matches Ok(event) && (event.block.hard matches Some(reasons) && reasons@
                == HardBlockReasons::truncate(record@[8]))),
    {
        let len = record.len();
        if len != 8 && len != 9 {
            return Err(DecodeError::InvalidLength { found: len });
        }
        proof {
            if Event::well_formed(record@) && record@[7] == 0 {
                Event::lemma_hard_flag_clear(record@, ByteOrder::LittleEndian);
                Event::lemma_hard_flag_clear(record@, ByteOrder::BigEndian);
            }
            if Event::well_formed(record@) && record@[7] != 0 && record@.len() == 9 {
                Event::lemma_hard_flag_set(record@, ByteOrder::LittleEndian);
                Event::lemma_hard_flag_set(record@, ByteOrder::BigEndian);
            }
        }
        let mut reader = Reader::new(record);
        Event::read_from(&mut reader)
    }

    /// A record whose hard flag is zero ends with that flag: the decoder
    /// reads eight bytes, leaves a ninth untouched and reports no hard block.
    pub proof fn lemma_hard_flag_clear(bytes: Seq<u8>, order: ByteOrder)
        requires
            bytes.len() >= 8,
            bytes[4] <= 8,
            bytes[5] <= 3,
            bytes[7] == 0,
        ensures
            Event::parse(bytes, order) matches Ok((event, used)) && used == 8 && event.block.hard
                is None && event.block.soft == (bytes[6] != 0),
            Event::parse(bytes, order) == Event::parse(bytes.take(8), order),
    {
    }

    /// A record whose hard flag is set carries a ninth byte, and the reasons
    /// of the hard block are the named bits of that byte.
    pub proof fn lemma_hard_flag_set(bytes: Seq<u8>, order: ByteOrder)
        requires
            bytes.len() >= 9,
            bytes[4] <= 8,
            bytes[5] <= 3,
            bytes[7] != 0,
        ensures
            Event::parse(bytes, order) matches Ok((event, used)) && used == 9 && event.block.soft
                == (bytes[6] != 0) && (event.block.hard matches Some(reasons) && reasons@
                == HardBlockReasons::truncate(bytes[8]) && reasons.wf()),
    {
        let reasons = HardBlockReasons::spec_from_bits_truncate(bytes[8]);
        HardBlockReasons::lemma_mask_is_bits(reasons, reasons, bytes[8]);
    }

    /// Decoding depends on the bytes alone: the kind, the operation and the
    /// block of a record are the same in either byte order, and so is the
    /// error of a record that has none.
    pub proof fn lemma_order_touches_index_only(bytes: Seq<u8>)
        ensures
            match (
                Event::parse(bytes, ByteOrder::LittleEndian),
                Event::parse(bytes, ByteOrder::BigEndian),
            ) {
                (Ok((little, used_little)), Ok((big, used_big))) => little.kind == big.kind
                    && little.operation == big.operation && little.block == big.block
                    && used_little == used_big,
                (Err(little), Err(big)) => little == big,
                _ => false,
            },
    {
    }
}

impl ReadFrom for Event {
    type Error = DecodeError;

    /// Reads a record whose index is in the byte order of the machine.
    fn read_from(reader: &mut Reader<'_>) -> (result: Result<Event, DecodeError>)
        ensures
            decodes(
                *old(reader),
                *final(reader),
                result,
                Event::parse(old(reader).remaining(), ByteOrder::LittleEndian),
            ) || decodes(
                *old(reader),
                *final(reader),
                result,
                Event::parse(old(reader).remaining(), ByteOrder::BigEndian),
            ),
    {
        let start = *reader;
        let index = match u32::read_from(reader) {
            Ok(index) => index,
            Err(error) => return Err(error),
        };
        match Event::read_fields(index, reader) {
            Ok(event) => Ok(event),
            Err(error) => {
                *reader = start;
                Err(error)
            },
        }
    }
}

} // verus!
