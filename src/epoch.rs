//! Epochs, the identity of the chain state a capability was minted against,
//! and the guard that detects when that state has been replaced.
use crate::error::GuardError;
use tokio::sync::watch::Receiver;
use vstd::prelude::*;

verus! {

/// A snapshot of chain-state identity, published by one authority that
/// increments `seq` on every advance or reorg.
#[derive(Clone, Debug)]
pub struct Epoch {
    pub seq: u64,
    pub head: Vec<u8>,
    pub adopted_block: u64,
}

/// tokio's broadcast-latest-value receiver; each reader sees the most recently
/// published epoch.
#[verifier::external_type_specification]
#[verifier::external_body]
#[verifier::reject_recursive_types(T)]
pub struct ExReceiver<T>(Receiver<T>);

/// Relies on tokio's `Receiver::clone`: a second reader of the same channel.
pub assume_specification<T>[ <Receiver<T> as Clone>::clone ](rx: &Receiver<T>) -> Receiver<T>;

/// Relies on tokio's `watch::Receiver::borrow`: reads the sequence number of
/// the epoch published last. What it is depends on the publisher, so nothing
/// is promised of it.
#[verifier::external_body]
fn observed_seq(rx: &Receiver<Epoch>) -> (r: u64) {
    rx.borrow().seq
}

/// Relies on tokio's `watch::Receiver::borrow`: copies out the epoch published
/// last, whatever it is.
#[verifier::external_body]
pub(crate) fn observed_epoch(rx: &Receiver<Epoch>) -> (r: Epoch) {
    let e = rx.borrow();
    Epoch { seq: e.seq, head: e.head.clone(), adopted_block: e.adopted_block }
}

/// The epoch guard's answer when the current sequence number is `current`:
/// valid iff it equals the one recorded at mint time, in either direction.
pub open spec fn epoch_verdict(issued: u64, current: u64) -> Result<(), GuardError> {
    if current == issued {
        Ok(())
    } else {
        Err(GuardError::StaleEpoch { issued, current })
    }
}

/// Decides an epoch check from an observed sequence number.
pub fn check_epoch(issued: u64, current: u64) -> (r: Result<(), GuardError>)
    ensures
        r == epoch_verdict(issued, current),
{
    if current != issued {
        return Err(GuardError::StaleEpoch { issued, current });
    }
    Ok(())
}

/// Binds a capability to the epoch sequence number current when it was minted.
pub struct EpochGuard {
    pub issued_seq: u64,
    pub receiver: Receiver<Epoch>,
}

impl EpochGuard {
    pub fn new(issued_seq: u64, receiver: Receiver<Epoch>) -> (r: Self)
        ensures
            r.issued_seq == issued_seq,
            r.receiver == receiver,
    {
        EpochGuard { issued_seq, receiver }
    }

    /// Fails with `StaleEpoch` whenever the epoch observed now is not the one
    /// this guard was issued at.
    pub fn check(&self) -> (r: Result<(), GuardError>)
        ensures
            exists|current: u64| r == epoch_verdict(self.issued_seq, current),
    {
        let current = observed_seq(&self.receiver);
        check_epoch(self.issued_seq, current)
    }

    /// The sequence number of the epoch published last, whatever it is.
    pub(crate) fn current_seq(&self) -> u64 {
        observed_seq(&self.receiver)
    }

    /// Another guard anchored at the same sequence number, reading the same
    /// channel.
    pub fn duplicate(&self) -> (r: Self)
        ensures
            r.issued_seq == self.issued_seq,
    {
        EpochGuard { issued_seq: self.issued_seq, receiver: self.receiver.clone() }
    }
}

} // verus!
