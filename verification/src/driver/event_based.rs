//! A device as the event stream describes it.

use crate::base::Kind;
use crate::driver::seal::{EventBasedRepr, StateSeal};
use crate::driver::{BlockStatus, Driver, State};
use vstd::prelude::*;

verus! {

/// Shape of a device that is known from events alone.
#[derive(Debug, Clone, Copy, PartialEq, Eq, Hash)]
pub struct EventBased;

impl State for EventBased {

}

impl StateSeal for EventBased {
    type Repr = EventBasedRepr;
}

impl View for Driver<EventBased> {
    type V = EventBasedRepr;

    closed spec fn view(&self) -> EventBasedRepr {
        self.0
    }
}

impl Driver<EventBased> {
    /// The device of an index as an event describes it.
    pub(crate) fn event_based(index: usize, kind: Kind, block_status: BlockStatus) -> (driver:
        Driver<EventBased>)
        ensures
            driver@ == (EventBasedRepr { index, kind, block_status }),
    {
        Driver(EventBasedRepr { index, kind, block_status })
    }

    /// Identity of the device in the event stream.
    pub fn index(&self) -> (index: usize)
        ensures
            index == self@.index,
    {
        self.0.index
    }

    /// Class of the device.
    pub fn kind(&self) -> (kind: Kind)
        ensures
            kind == self@.kind,
    {
        self.0.kind
    }

    /// Whether and how the device is blocked, as of the last event.
    pub fn block_status(&self) -> (status: BlockStatus)
        ensures
            status == self@.block_status,
    {
        self.0.block_status
    }
}

} // verus!
