//! What a device holds in each of its shapes.

use crate::base::{HardBlockReasons, Kind};
use crate::driver::BlockStatus;
use std::path::PathBuf;
use vstd::prelude::*;

verus! {

/// `std::path::PathBuf`, carried through as it is.
#[verifier::external_type_specification]
#[verifier::external_body]
pub struct ExPathBuf(PathBuf);

/// A device whose attribute files are read one by one, each at most once.
/// A field is `None` until its file has been read and understood.
#[derive(Debug)]
pub struct PartiallyReadRepr {
    /// Directory of the device's attribute files.
    pub path: PathBuf,
    pub name: Option<String>,
    pub kind: Option<Kind>,
    pub persistent: Option<bool>,
    pub soft_blocked: Option<bool>,
    pub hard_blocked: Option<bool>,
    pub hard_block_reasons: Option<HardBlockReasons>,
}

/// A device with every attribute read.
#[derive(Debug, Clone, PartialEq, Eq, Hash)]
pub struct FullyReadRepr {
    pub name: String,
    pub kind: Kind,
    pub persistent: bool,
    pub block_status: BlockStatus,
}

/// A device as the event stream describes it.
#[derive(Debug, Clone, Copy, PartialEq, Eq, Structural)]
pub struct EventBasedRepr {
    pub index: usize,
    pub kind: Kind,
    pub block_status: BlockStatus,
}

/// Ties a shape to what a device of that shape holds. Only the shapes of
/// this crate have one.
pub trait StateSeal {
    type Repr;
}

} // verus!
