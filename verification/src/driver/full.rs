//! A device with every attribute read.

use crate::base::Kind;
use crate::driver::seal::{FullyReadRepr, StateSeal};
use crate::driver::{BlockStatus, Driver, State};
use vstd::prelude::*;

verus! {

/// Shape of a device whose attributes have all been read.
#[derive(Debug, Clone, Copy, PartialEq, Eq, Hash)]
pub struct Full;

impl State for Full {

}

impl StateSeal for Full {
    type Repr = FullyReadRepr;
}

impl Driver<Full> {
    /// Name of the device.
    pub closed spec fn spec_name(&self) -> Seq<char> {
        self.0.name@
    }

    pub closed spec fn spec_kind(&self) -> Kind {
        self.0.kind
    }

    pub closed spec fn spec_persistent(&self) -> bool {
        self.0.persistent
    }

    pub closed spec fn spec_block_status(&self) -> BlockStatus {
        self.0.block_status
    }

    /// The fully read device of these attributes.
    pub(crate) fn promoted(
        name: String,
        kind: Kind,
        persistent: bool,
        block_status: BlockStatus,
    ) -> (full: Driver<Full>)
        ensures
            full.spec_name() == name@,
            full.spec_kind() == kind,
            full.spec_persistent() == persistent,
            full.spec_block_status() == block_status,
    {
        Driver(FullyReadRepr { name, kind, persistent, block_status })
    }

    /// Name of the device.
    pub fn name(&self) -> (name: &str)
        ensures
            name@ == self.spec_name(),
    {
        self.0.name.as_str()
    }

    /// Class of the device.
    pub fn kind(&self) -> (kind: Kind)
        ensures
            kind == self.spec_kind(),
    {
        self.0.kind
    }

    /// Whether the block state survives a restart.
    pub fn persistent(&self) -> (persistent: bool)
        ensures
            persistent == self.spec_persistent(),
    {
        self.0.persistent
    }

    /// Whether and how the device is blocked.
    pub fn block_status(&self) -> (status: BlockStatus)
        ensures
            status == self.spec_block_status(),
    {
        self.0.block_status
    }
}

} // verus!
