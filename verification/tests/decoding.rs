use rfkill::base::{Block, Event, HardBlockReasons, Kind, Operation};
use rfkill::events::next_event;
use rfkill::reader::{DecodeError, ReadFrom, Reader};

fn record(index: u32, kind: u8, operation: u8, soft: u8, hard: u8, reasons: Option<u8>) -> Vec<u8> {
    let mut bytes = index.to_ne_bytes().to_vec();
    bytes.push(kind);
    bytes.push(operation);
    bytes.push(soft);
    bytes.push(hard);
    if let Some(reasons) = reasons {
        bytes.push(reasons);
    }
    bytes
}

#[test]
fn kind_discriminants_decode() {
    assert_eq!(Kind::from_u8(0), Some(Kind::All));
    assert_eq!(Kind::from_u8(1), Some(Kind::WirelessLan));
    assert_eq!(Kind::from_u8(2), Some(Kind::Bluetooth));
    assert_eq!(Kind::from_u8(3), Some(Kind::UltraWideBand));
    assert_eq!(Kind::from_u8(4), Some(Kind::WiMax));
    assert_eq!(Kind::from_u8(5), Some(Kind::WirelessWan));
    assert_eq!(Kind::from_u8(6), Some(Kind::Gps));
    assert_eq!(Kind::from_u8(7), Some(Kind::Fm));
    assert_eq!(Kind::from_u8(8), Some(Kind::Nfc));
}

#[test]
fn kind_discriminant_out_of_range() {
    for value in 9..=255u8 {
        assert_eq!(Kind::from_u8(value), None);
    }
}

#[test]
fn kind_round_trips_through_its_discriminant() {
    for value in 0..=8u8 {
        let kind = Kind::from_u8(value).unwrap();
        assert_eq!(kind.to_u8(), value);
        assert_eq!(Kind::from_u8(kind.to_u8()), Some(kind));
    }
}

#[test]
fn operation_discriminants_decode() {
    assert_eq!(Operation::from_u8(0), Some(Operation::Add));
    assert_eq!(Operation::from_u8(1), Some(Operation::Delete));
    assert_eq!(Operation::from_u8(2), Some(Operation::Change { all: false }));
    assert_eq!(Operation::from_u8(3), Some(Operation::Change { all: true }));
    for value in 4..=255u8 {
        assert_eq!(Operation::from_u8(value), None);
    }
}

#[test]
fn operation_round_trips_through_its_discriminant() {
    assert_eq!(Operation::Add.to_u8(), 0);
    assert_eq!(Operation::Delete.to_u8(), 1);
    assert_eq!(Operation::Change { all: false }.to_u8(), 2);
    assert_eq!(Operation::Change { all: true }.to_u8(), 3);
    for value in 0..=3u8 {
        assert_eq!(Operation::from_u8(value).unwrap().to_u8(), value);
    }
}

#[test]
fn reasons_drop_unknown_bits() {
    assert_eq!(HardBlockReasons::from_bits_truncate(0xff).bits(), 0b0000_0011);
    assert_eq!(HardBlockReasons::from_bits_truncate(0b1111_1101).bits(), 0b01);
    assert_eq!(HardBlockReasons::from_bits_truncate(0b0000_0100).bits(), 0);
    assert!(HardBlockReasons::from_bits_truncate(0b0000_0100).is_empty());
    assert_eq!(HardBlockReasons::from_bits_truncate(2), HardBlockReasons::not_owner());
}

#[test]
fn reasons_reject_unknown_bits_when_asked_to() {
    assert_eq!(HardBlockReasons::from_bits(3).map(|mask| mask.bits()), Some(3));
    assert_eq!(HardBlockReasons::from_bits(0), Some(HardBlockReasons::empty()));
    assert_eq!(HardBlockReasons::from_bits(4), None);
    assert_eq!(HardBlockReasons::from_bits(0xff), None);
}

#[test]
fn reasons_answer_queries() {
    let both = HardBlockReasons::from_bits_truncate(3);
    let signal = HardBlockReasons::signal();
    let not_owner = HardBlockReasons::not_owner();
    assert_eq!(signal.bits(), HardBlockReasons::SIGNAL);
    assert_eq!(not_owner.bits(), HardBlockReasons::NOT_OWNER);
    assert!(both.contains(signal));
    assert!(both.contains(not_owner));
    assert!(!signal.contains(both));
    assert!(signal.contains(HardBlockReasons::empty()));
    assert!(signal.intersects(both));
    assert!(!signal.intersects(not_owner));
    assert!(signal.is_signal());
    assert!(!signal.is_not_owner());
    assert!(not_owner.is_not_owner());
    assert!(!HardBlockReasons::empty().is_signal());
}

#[test]
fn block_reports_its_fields() {
    let block = Block::new(true, Some(HardBlockReasons::signal()));
    assert!(block.soft);
    assert!(block.hard());
    assert_eq!(block.hard_block_reasons(), Some(HardBlockReasons::signal()));
    let block = Block::new(false, None);
    assert!(!block.soft);
    assert!(!block.hard());
    assert_eq!(block.hard_block_reasons(), None);
}

#[test]
fn eight_bytes_without_hard_flag() {
    let bytes = record(7, 1, 0, 1, 0, None);
    assert_eq!(bytes.len(), 8);
    let event = Event::decode(&bytes).unwrap();
    assert_eq!(event.index, 7);
    assert_eq!(event.kind, Kind::WirelessLan);
    assert_eq!(event.operation, Operation::Add);
    assert!(event.block.soft);
    assert_eq!(event.block.hard_block_reasons(), None);
}

#[test]
fn ninth_byte_is_left_alone_without_hard_flag() {
    let bytes = record(7, 2, 2, 0, 0, Some(0xff));
    let mut reader = Reader::new(&bytes);
    let event = Event::read_from(&mut reader).unwrap();
    assert_eq!(reader.position(), 8);
    assert_eq!(reader.remaining_len(), 1);
    assert_eq!(event.block, Block::new(false, None));
    assert_eq!(Event::decode(&bytes).unwrap(), event);
}

#[test]
fn nine_bytes_with_hard_flag() {
    let bytes = record(0x0102_0304, 8, 3, 0, 1, Some(0xff));
    let mut reader = Reader::new(&bytes);
    let event = Event::read_from(&mut reader).unwrap();
    assert_eq!(reader.position(), 9);
    assert_eq!(event.index, 0x0102_0304);
    assert_eq!(event.kind, Kind::Nfc);
    assert_eq!(event.operation, Operation::Change { all: true });
    assert!(!event.block.soft);
    assert_eq!(event.block.hard_block_reasons().unwrap().bits(), 0b0000_0011);
}

#[test]
fn any_nonzero_flag_byte_is_set() {
    let bytes = record(1, 0, 0, 0x80, 0x02, Some(1));
    let event = Event::decode(&bytes).unwrap();
    assert!(event.block.soft);
    assert_eq!(event.block.hard_block_reasons(), Some(HardBlockReasons::signal()));
}

#[test]
fn hard_flag_without_reasons_is_truncated() {
    let bytes = record(1, 1, 0, 0, 1, None);
    assert_eq!(Event::decode(&bytes), Err(DecodeError::UnexpectedEof));
}

#[test]
fn wrong_length_is_rejected_before_any_field() {
    let bytes = [0xffu8; 7];
    assert_eq!(Event::decode(&bytes), Err(DecodeError::InvalidLength { found: 7 }));
    let bytes = [0xffu8; 10];
    assert_eq!(Event::decode(&bytes), Err(DecodeError::InvalidLength { found: 10 }));
    assert_eq!(Event::decode(&[]), Err(DecodeError::InvalidLength { found: 0 }));
}

#[test]
fn invalid_kind_is_reported_with_its_discriminant() {
    let bytes = record(1, 9, 0, 0, 0, None);
    assert_eq!(Event::decode(&bytes), Err(DecodeError::InvalidKind { discriminant: 9 }));
    let bytes = record(1, 200, 77, 0, 0, None);
    assert_eq!(Event::decode(&bytes), Err(DecodeError::InvalidKind { discriminant: 200 }));
}

#[test]
fn invalid_operation_is_reported_with_its_discriminant() {
    let bytes = record(1, 8, 4, 0, 0, None);
    assert_eq!(Event::decode(&bytes), Err(DecodeError::InvalidOperation { discriminant: 4 }));
}

#[test]
fn failed_read_does_not_move_the_reader() {
    let bytes = record(1, 8, 4, 0, 0, None);
    let mut reader = Reader::new(&bytes);
    assert!(Event::read_from(&mut reader).is_err());
    assert_eq!(reader.position(), 0);
    assert_eq!(reader.remaining_len(), 8);
    assert_eq!(u32::read_from(&mut reader), Ok(1));
    assert_eq!(reader.position(), 4);
    assert_eq!(Kind::read_from(&mut reader), Ok(Kind::Nfc));
    assert_eq!(
        Operation::read_from(&mut reader),
        Err(DecodeError::InvalidOperation { discriminant: 4 })
    );
    assert_eq!(reader.position(), 5);
}

#[test]
fn fields_are_read_one_after_another() {
    let bytes = [5u8, 0, 1, 3];
    let mut reader = Reader::new(&bytes);
    assert_eq!(u8::read_from(&mut reader), Ok(5));
    assert_eq!(bool::read_from(&mut reader), Ok(false));
    assert_eq!(bool::read_from(&mut reader), Ok(true));
    assert_eq!(HardBlockReasons::read_from(&mut reader).map(|mask| mask.bits()), Ok(3));
    assert_eq!(u8::read_from(&mut reader), Err(DecodeError::UnexpectedEof));
    assert_eq!(reader.next_byte(), None);
    assert_eq!(reader.position(), 4);
}

#[test]
fn index_is_read_in_native_order() {
    let bytes = 0xdead_beefu32.to_ne_bytes();
    let mut reader = Reader::new(&bytes);
    assert_eq!(u32::read_from(&mut reader), Ok(0xdead_beef));
    let short = [1u8, 2, 3];
    let mut reader = Reader::new(&short);
    assert_eq!(u32::read_from(&mut reader), Err(DecodeError::UnexpectedEof));
    assert_eq!(reader.position(), 0);
}

#[test]
fn fields_behind_a_given_index() {
    let bytes = [1u8, 2, 1, 5, 0xff];
    let mut reader = Reader::new(&bytes);
    let event = Event::read_fields(7, &mut reader).unwrap();
    assert_eq!(event.index, 7);
    assert_eq!(event.kind, Kind::WirelessLan);
    assert_eq!(event.operation, Operation::Change { all: false });
    assert_eq!(event.block, Block::new(true, Some(HardBlockReasons::from_bits_truncate(3))));
    assert_eq!(reader.remaining_len(), 0);
}

#[test]
fn block_is_read_from_two_or_three_bytes() {
    let mut reader = Reader::new(&[1, 0, 9]);
    assert_eq!(Block::read_from(&mut reader), Ok(Block::new(true, None)));
    assert_eq!(reader.position(), 2);
    let mut reader = Reader::new(&[0, 1, 2]);
    assert_eq!(
        Block::read_from(&mut reader),
        Ok(Block::new(false, Some(HardBlockReasons::not_owner())))
    );
    assert_eq!(reader.position(), 3);
    let mut reader = Reader::new(&[0, 1]);
    assert_eq!(Block::read_from(&mut reader), Err(DecodeError::UnexpectedEof));
    assert_eq!(reader.position(), 0);
}

#[test]
fn empty_chunk_ends_the_stream() {
    assert_eq!(next_event(&[]), None);
}

#[test]
fn short_chunk_is_an_error_of_that_element() {
    assert_eq!(next_event(&[1, 2, 3]), Some(Err(DecodeError::InvalidLength { found: 3 })));
    let next = record(3, 2, 0, 0, 0, None);
    let event = next_event(&next).unwrap().unwrap();
    assert_eq!(event.index, 3);
    assert_eq!(event.kind, Kind::Bluetooth);
}

#[test]
fn chunk_of_a_record_is_decoded() {
    let bytes = record(1, 1, 2, 0, 1, Some(1));
    let event = next_event(&bytes).unwrap().unwrap();
    assert_eq!(event.index, 1);
    assert_eq!(event.operation, Operation::Change { all: false });
    assert!(event.block.hard());
    assert!(event.block.hard_block_reasons().unwrap().is_signal());
    assert_eq!(Event::SIZE, 9);
}
