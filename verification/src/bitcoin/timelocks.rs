//! Block heights and the two relative timelocks of the swap.

use vstd::prelude::*;

verus! {

/// The height of a block in the chain.
#[derive(Debug, Clone, Copy, PartialEq, Eq, Structural)]
pub struct BlockHeight(pub u32);

/// The number of blocks from the confirmation of the lock transaction until
/// the cancel transaction can be mined.
#[derive(Debug, Clone, Copy, PartialEq, Eq, Structural)]
pub struct CancelTimelock(pub u32);

/// The number of blocks from the confirmation of the cancel transaction until
/// the punish transaction can be mined.
#[derive(Debug, Clone, Copy, PartialEq, Eq, Structural)]
pub struct PunishTimelock(pub u32);

/// The height `blocks` above `height`, unless no height can hold it.
pub open spec fn height_after(height: BlockHeight, blocks: u32) -> Option<BlockHeight> {
    if height.0 + blocks <= u32::MAX {
        Some(BlockHeight((height.0 + blocks) as u32))
    } else {
        None
    }
}

impl BlockHeight {
    /// The height at which a cancel timelock that starts here has run out.
    pub fn after_cancel_timelock(self, timelock: CancelTimelock) -> (expiry: Option<BlockHeight>)
        ensures
            expiry == height_after(self, timelock.0),
    {
        if self.0 <= u32::MAX - timelock.0 {
            Some(BlockHeight(self.0 + timelock.0))
        } else {
            None
        }
    }

    /// The height at which a punish timelock that starts here has run out.
    pub fn after_punish_timelock(self, timelock: PunishTimelock) -> (expiry: Option<BlockHeight>)
        ensures
            expiry == height_after(self, timelock.0),
    {
        if self.0 <= u32::MAX - timelock.0 {
            Some(BlockHeight(self.0 + timelock.0))
        } else {
            None
        }
    }

    /// Whether the chain, at this height, has reached `target`.
    pub fn has_reached(self, target: BlockHeight) -> (reached: bool)
        ensures
            reached == (self.0 >= target.0),
    {
        self.0 >= target.0
    }
}

} // verus!
