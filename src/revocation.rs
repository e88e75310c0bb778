//! The one-way revocation latch shared by a grantor's handle and every guard
//! cloned from it.
use crate::error::GuardError;
use std::sync::atomic::{AtomicBool, Ordering};
use std::sync::Arc;
use vstd::prelude::*;

verus! {

/// Read side of the latch, cloned into every capability server of a grant.
/// All clones share one flag.
pub struct RevocationGuard {
    revoked: Arc<AtomicBool>,
}

/// Write side of the latch, kept by the grantor.
pub struct RevocationHandle {
    revoked: Arc<AtomicBool>,
}

/// The guard's answer for a given state of the latch.
pub open spec fn revocation_verdict(revoked: bool) -> Result<(), GuardError> {
    if revoked {
        Err(GuardError::Revoked)
    } else {
        Ok(())
    }
}

/// Decides a revocation check from an observed state of the latch.
pub fn check_revocation(revoked: bool) -> (r: Result<(), GuardError>)
    ensures
        r == revocation_verdict(revoked),
{
    if revoked {
        Err(GuardError::Revoked)
    } else {
        Ok(())
    }
}

impl RevocationGuard {
    /// Creates an unrevoked pair: the handle for the grantor, the guard for
    /// capability servers. Both refer to one fresh latch.
    pub fn new() -> (RevocationHandle, Self) {
        let flag = Arc::new(AtomicBool::new(false));
        let handle = RevocationHandle { revoked: flag.clone() };
        let guard = RevocationGuard { revoked: flag };
        (handle, guard)
    }

    /// Fails with `Revoked` once the latch is set. The latch is read with
    /// acquire ordering, so a revocation stored before is always seen.
    pub fn check(&self) -> (r: Result<(), GuardError>)
        ensures
            exists|revoked: bool| r == revocation_verdict(revoked),
    {
        let revoked = self.revoked.load(Ordering::Acquire);
        check_revocation(revoked)
    }
}

impl RevocationGuard {
    /// Whether the latch is set at this moment.
    pub(crate) fn is_set(&self) -> bool {
        self.revoked.load(Ordering::Acquire)
    }
}

impl Clone for RevocationGuard {
    /// Another guard on the same latch.
    fn clone(&self) -> (r: Self) {
        RevocationGuard { revoked: self.revoked.clone() }
    }
}

impl RevocationHandle {
    /// Sets the latch. Calling it again changes nothing.
    pub fn revoke(&self) {
        self.revoked.store(true, Ordering::Release);
    }

    /// Whether the latch has been set.
    pub fn is_revoked(&self) -> bool {
        self.revoked.load(Ordering::Acquire)
    }
}

} // verus!
