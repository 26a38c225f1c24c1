//! The event stream of the character device, one chunk at a time.

use crate::base::Event;
use crate::reader::{ByteOrder, DecodeError};
use vstd::prelude::*;

verus! {

/// What one read of the character device means, on a machine of the given
/// byte order: nothing for an empty chunk, else the record or the reason why
/// the chunk is none.
pub open spec fn spec_next_event(chunk: Seq<u8>, order: ByteOrder) -> Option<
    Result<Event, DecodeError>,
> {
    if chunk.len() == 0 {
        None
    } else {
        Some(Event::decoded(chunk, order))
    }
}

/// Turns the bytes that one read of the character device returned into the
/// next element of the event stream. An empty chunk ends the stream. A chunk
/// of a wrong length or with an invalid field is an error for this element
/// alone: the stream goes on behind it.
pub fn next_event(chunk: &[u8]) -> (element: Option<Result<Event, DecodeError>>)
    ensures
        element == spec_next_event(chunk@, ByteOrder::LittleEndian) || element == spec_next_event(
            chunk@,
            ByteOrder::BigEndian,
        ),
        element is None <==> chunk@.len() == 0,
        chunk@.len() != 0 && chunk@.len() != 8 && chunk@.len() != 9 ==> element == Some(
            Err::<Event, DecodeError>(DecodeError::InvalidLength { found: chunk.len() }),
        ),
{
    if chunk.len() == 0 {
        return None;
    }
    Some(Event::decode(chunk))
}

} // verus!
