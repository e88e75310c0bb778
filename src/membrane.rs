//! The grafting protocol: every `graft` mints a session anchored at the epoch
//! current at that moment, and lets a pluggable builder fill in the
//! resource-specific part.
use crate::epoch::{epoch_verdict, observed_epoch, Epoch, EpochGuard};
use crate::error::GuardError;
use tokio::sync::watch::Receiver;
use vstd::prelude::*;

verus! {

/// The extension point of the membrane: writes resource-specific fields into
/// `out`, and may mint capability servers that keep a copy of `guard`.
pub trait SessionExtensionBuilder<T> {
    /// What a successful `build` for a guard issued at `issued_seq` leaves in
    /// the extension.
    spec fn filled(&self, issued_seq: u64, out: T) -> bool;

    /// Whether this builder always succeeds.
    spec fn infallible(&self) -> bool;

    fn build(&self, guard: &EpochGuard, out: &mut T) -> (r: Result<(), capnp::Error>)
        ensures
            r is Ok ==> self.filled(guard.issued_seq, *final(out)),
            self.infallible() ==> r is Ok,
    ;
}

/// The builder for bare epoch-scoped sessions: fills nothing.
pub struct NoExtension;

impl<T> SessionExtensionBuilder<T> for NoExtension {
    open spec fn filled(&self, issued_seq: u64, out: T) -> bool {
        true
    }

    open spec fn infallible(&self) -> bool {
        true
    }

    fn build(&self, guard: &EpochGuard, out: &mut T) -> Result<(), capnp::Error> {
        Ok(())
    }
}

/// Lets a session holder ask whether its epoch is still current, without a
/// resource grant.
pub struct StatusPoller {
    pub guard: EpochGuard,
}

impl StatusPoller {
    pub fn poll(&self) -> (r: Result<(), GuardError>)
        ensures
            exists|current: u64| r == epoch_verdict(self.guard.issued_seq, current),
    {
        self.guard.check()
    }
}

/// A minted session: the epoch it was anchored at, its guard, a status
/// poller on the same anchor, and the builder's extension.
pub struct Session<T> {
    pub epoch: Epoch,
    pub guard: EpochGuard,
    pub status: StatusPoller,
    pub extension: T,
}

/// Mints epoch-scoped sessions from a read-only view of the current epoch.
pub struct MembraneServer<B> {
    pub receiver: Receiver<Epoch>,
    pub builder: B,
}

impl<B> MembraneServer<B> {
    pub fn new(receiver: Receiver<Epoch>, builder: B) -> (r: Self)
        ensures
            r.receiver == receiver,
            r.builder == builder,
    {
        MembraneServer { receiver, builder }
    }

    /// Takes a snapshot of the current epoch, anchors a fresh guard at its
    /// sequence number and hands that guard to the extension builder. The
    /// only failure is the builder's, so a graft through an infallible
    /// builder always succeeds.
    pub fn graft<T>(&self, extension: T) -> (r: Result<Session<T>, capnp::Error>) where
        B: SessionExtensionBuilder<T>,
        ensures
            self.builder.infallible() ==> r is Ok,
            r matches Ok(s) ==> {
                &&& s.guard.issued_seq == s.epoch.seq
                &&& s.status.guard.issued_seq == s.epoch.seq
                &&& self.builder.filled(s.guard.issued_seq, s.extension)
            },
    {
        let epoch = observed_epoch(&self.receiver);
        let guard = EpochGuard::new(epoch.seq, self.receiver.clone());
        let mut extension = extension;
        match self.builder.build(&guard, &mut extension) {
            Err(e) => Err(e),
            Ok(()) => {
                let status = StatusPoller { guard: guard.duplicate() };
                Ok(Session { epoch, guard, status, extension })
            },
        }
    }
}

} // verus!
