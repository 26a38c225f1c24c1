//! A typed model of the Linux radio-kill-switch ("rfkill") subsystem: the
//! binary event records of the character device, the textual attribute files
//! of a single device, and the registry that replays events into a map of
//! devices.

pub mod base;
pub mod driver;
pub mod drivers;
pub mod events;
pub mod reader;
pub mod text;

pub use base::{Block, Event, HardBlockReasons, Kind, Operation};
pub use driver::{BlockStatus, BlockStatusRepr, Driver, EventBased, Full, Partial, State};
pub use drivers::{drivers, Drivers, DriversReadGuard, Fault, UnknownDevice};
pub use events::next_event;
pub use reader::{ByteOrder, DecodeError, ReadFrom, Reader};

use vstd::prelude::*;

verus! {

/// Path of the character device that emits event records.
pub const CHAR_DEVICE: &'static str = "/dev/rfkill";

} // verus!
