//! The static, inclusive block-height window of a grant.
use crate::error::GuardError;
use vstd::prelude::*;

verus! {

/// Accepts a target block iff `valid_from <= target <= valid_until`.
#[derive(Clone, Copy, Debug, PartialEq, Eq, Structural)]
pub struct BlockWindowGuard {
    pub valid_from: u64,
    pub valid_until: u64,
}

impl BlockWindowGuard {
    pub open spec fn contains(self, target_block: u64) -> bool {
        self.valid_from <= target_block && target_block <= self.valid_until
    }

    pub open spec fn verdict(self, target_block: u64) -> Result<(), GuardError> {
        if self.contains(target_block) {
            Ok(())
        } else {
            Err(
                GuardError::BlockOutOfWindow {
                    target: target_block,
                    valid_from: self.valid_from,
                    valid_until: self.valid_until,
                },
            )
        }
    }

    pub fn check(&self, target_block: u64) -> (r: Result<(), GuardError>)
        ensures
            r == self.verdict(target_block),
    {
        if target_block < self.valid_from || target_block > self.valid_until {
            return Err(
                GuardError::BlockOutOfWindow {
                    target: target_block,
                    valid_from: self.valid_from,
                    valid_until: self.valid_until,
                },
            );
        }
        Ok(())
    }
}

} // verus!
