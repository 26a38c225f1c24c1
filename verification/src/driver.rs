//! A radio device in its three shapes, and the block status they share.

use crate::base::{Block, HardBlockReasons};
use vstd::prelude::*;

pub mod event_based;
pub mod full;
pub mod partial;
mod seal;

pub use event_based::EventBased;
pub use full::Full;
pub use partial::Partial;
pub use seal::{EventBasedRepr, FullyReadRepr, PartiallyReadRepr};

verus! {

/// The shape of a device: which of its fields are there, and where they came
/// from.
pub trait State: seal::StateSeal {

}

/// A radio device in the shape `S`.
#[derive(Debug, Clone, Copy, PartialEq, Eq)]
pub struct Driver<S: State>(pub(crate) S::Repr);

/// The two forms of a block status.
#[derive(Debug, Clone, Copy, PartialEq, Eq, Hash, Structural)]
pub enum BlockStatusRepr {
    Blocked(Block),
    Unblocked,
}

impl BlockStatusRepr {
    /// The form that stands for a block condition: a condition that blocks
    /// nothing is `Unblocked`, any other is kept as it is.
    pub open spec fn canonical(block: Block) -> BlockStatusRepr {
        if !block.soft && block.hard is None {
            BlockStatusRepr::Unblocked
        } else {
            BlockStatusRepr::Blocked(block)
        }
    }

    /// The soft flag and the reasons of the hard block.
    pub open spec fn flags(self) -> (bool, Option<HardBlockReasons>) {
        match self {
            BlockStatusRepr::Blocked(block) => (block.soft, block.hard),
            BlockStatusRepr::Unblocked => (false, None),
        }
    }
}

/// Whether and how a device is blocked. A device that nothing blocks has one
/// representation only: `Unblocked`.
#[derive(Debug, Clone, Copy, PartialEq, Eq, Hash, Structural)]
pub struct BlockStatus(BlockStatusRepr);

impl View for BlockStatus {
    type V = BlockStatusRepr;

    closed spec fn view(&self) -> BlockStatusRepr {
        self.0
    }
}

impl BlockStatus {
    /// The status of a block condition.
    pub closed spec fn spec_from_block(block: Block) -> BlockStatus {
        BlockStatus(BlockStatusRepr::canonical(block))
    }

    /// Holds of every status: it is never a block that blocks nothing.
    pub open spec fn wf(self) -> bool {
        self@ != BlockStatusRepr::Blocked(Block { soft: false, hard: None })
    }

    #[verifier::type_invariant]
    spec fn inv(self) -> bool {
        self.0 != BlockStatusRepr::Blocked(Block { soft: false, hard: None })
    }

    /// The status of a soft flag and the reasons of a hard block.
    pub fn from_soft_and_hard(soft_block: bool, hard_block: Option<HardBlockReasons>) -> (status:
        BlockStatus)
        ensures
            status == BlockStatus::spec_from_block(Block { soft: soft_block, hard: hard_block }),
            !soft_block && hard_block is None ==> status@ == BlockStatusRepr::Unblocked,
            soft_block || hard_block is Some ==> status@ == BlockStatusRepr::Blocked(
                Block { soft: soft_block, hard: hard_block },
            ),
            status@.flags() == (soft_block, hard_block),
            status.wf(),
    {
        BlockStatus::from_block(Block { soft: soft_block, hard: hard_block })
    }

    /// The status of a block condition.
    pub fn from_block(block: Block) -> (status: BlockStatus)
        ensures
            status == BlockStatus::spec_from_block(block),
            status@ == BlockStatusRepr::canonical(block),
            status@.flags() == (block.soft, block.hard),
            status.wf(),
    {
        if !block.soft && block.hard.is_none() {
            BlockStatus(BlockStatusRepr::Unblocked)
        } else {
            BlockStatus(BlockStatusRepr::Blocked(block))
        }
    }

    /// The form of the status.
    pub fn inner(&self) -> (repr: BlockStatusRepr)
        ensures
            repr == self@,
            self.wf(),
    {
        proof {
            use_type_invariant(self);
        }
        self.0
    }

    /// The soft flag and the reasons of the hard block.
    pub fn get(&self) -> (flags: (bool, Option<HardBlockReasons>))
        ensures
            flags == self@.flags(),
    {
        match self.0 {
            BlockStatusRepr::Blocked(Block { soft, hard }) => (soft, hard),
            BlockStatusRepr::Unblocked => (false, None),
        }
    }

    /// Whether software blocks the device.
    pub fn soft_blocked(&self) -> (soft: bool)
        ensures
            soft == self@.flags().0,
    {
        let (soft, _) = self.get();
        soft
    }

    /// Why hardware blocks the device; `None` when it does not.
    pub fn hard_block_reasons(&self) -> (reasons: Option<HardBlockReasons>)
        ensures
            reasons == self@.flags().1,
    {
        let (_, hard) = self.get();
        hard
    }

    /// Whether hardware blocks the device.
    pub fn hard_blocked(&self) -> (hard: bool)
        ensures
            hard == self@.flags().1.is_some(),
    {
        let (_, hard) = self.get();
        hard.is_some()
    }

    /// Whether anything blocks the device.
    pub fn blocked(&self) -> (blocked: bool)
        ensures
            blocked == (self@.flags().0 || self@.flags().1.is_some()),
            blocked == (self@ is Blocked),
    {
        proof {
            use_type_invariant(self);
        }
        let (soft, hard) = self.get();
        soft || hard.is_some()
    }

    /// A status is its form: two statuses of the same form are the same
    /// status, and the status of a block condition has the canonical form.
    pub proof fn lemma_status_is_form(a: BlockStatus, b: BlockStatus, block: Block)
        ensures
            a@ == b@ <==> a == b,
            BlockStatus::spec_from_block(block)@ == BlockStatusRepr::canonical(block),
            BlockStatus::spec_from_block(block).wf(),
    {
    }

    /// The status of no soft block and no hard block is `Unblocked`. Every
    /// other pair gives `Blocked`, and the soft flag and the reasons read
    /// from that status are the ones it was made of.
    pub proof fn lemma_from_soft_and_hard(soft: bool, hard: Option<HardBlockReasons>)
        ensures
            BlockStatus::spec_from_block(Block { soft: false, hard: None })@
                == BlockStatusRepr::Unblocked,
            soft || hard is Some ==> BlockStatus::spec_from_block(Block { soft, hard })@
                == BlockStatusRepr::Blocked(Block { soft, hard }),
            BlockStatus::spec_from_block(Block { soft, hard })@.flags() == (soft, hard),
    {
    }

    /// A well-formed status is blocked exactly when it is soft-blocked or
    /// hard-blocked, and has reasons exactly when it is hard-blocked.
    pub proof fn lemma_blocked(status: BlockStatus)
        requires
            status.wf(),
        ensures
            status@ is Blocked <==> status@.flags().0 || status@.flags().1 is Some,
            status@ is Unblocked ==> status@.flags() == (false, None::<HardBlockReasons>),
            status == BlockStatus::spec_from_block(
                Block { soft: status@.flags().0, hard: status@.flags().1 },
            ),
    {
    }
}

} // verus!
