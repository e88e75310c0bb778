//! The bundle capability server and its fixed-order guard chain.
use crate::epoch::{check_epoch, epoch_verdict, EpochGuard};
use crate::error::{AccessError, GuardError};
use crate::revocation::{check_revocation, revocation_verdict, RevocationGuard};
use crate::window::BlockWindowGuard;
use vstd::prelude::*;

verus! {

/// The bundle's raw transactions. Held by the server, never handed to the
/// party that holds the capability.
#[derive(Clone, Debug)]
pub struct BundleSpec {
    pub txs: Vec<Vec<u8>>,
}

impl BundleSpec {
    pub open spec fn view_txs(&self) -> Seq<Seq<u8>> {
        self.txs@.map_values(|t: Vec<u8>| t@)
    }

    /// A copy with the same transactions, byte for byte.
    pub fn copy(&self) -> (r: BundleSpec)
        ensures
            r.view_txs() == self.view_txs(),
    {
        let mut txs: Vec<Vec<u8>> = Vec::new();
        let n = self.txs.len();
        for i in 0..n
            invariant
                n == self.txs.len(),
                txs@.len() == i,
                forall|j: int| 0 <= j < i ==> #[trigger] txs@[j]@ == self.txs@[j]@,
        {
            let tx = self.txs[i].clone();
            assert(tx@ =~= self.txs[i as int]@);
            txs.push(tx);
        }
        let r = BundleSpec { txs };
        assert(r.view_txs() =~= self.view_txs());
        r
    }
}

/// What a simulation of the bundle against a target block reports.
#[derive(Clone, Debug)]
pub struct SimResult {
    pub gas_used: u64,
    pub success: bool,
    pub state_root: Vec<u8>,
    pub revert_reason: String,
}

/// The answer to an authorised inclusion request.
#[derive(Clone, Copy, Debug, PartialEq, Eq, Structural)]
pub struct InclusionResponse {
    pub included: bool,
}

/// What the simulation backend is to be given once the guards have passed.
pub struct SimulationRequest {
    pub bundle: BundleSpec,
    pub target_block: u64,
}

/// The composite answer of the three guards, checked in the order epoch,
/// revocation, block window; the first failure is the one reported.
pub open spec fn chain_verdict(
    issued_seq: u64,
    current_seq: u64,
    revoked: bool,
    window: BlockWindowGuard,
    target_block: u64,
) -> Result<(), GuardError> {
    if epoch_verdict(issued_seq, current_seq) is Err {
        epoch_verdict(issued_seq, current_seq)
    } else if revocation_verdict(revoked) is Err {
        revocation_verdict(revoked)
    } else {
        window.verdict(target_block)
    }
}

/// The answer to an inclusion request under the given guard state:
/// `included: true` when the chain passes, else the chain's error. It
/// depends on nothing but the guards.
pub open spec fn inclusion_verdict(
    issued_seq: u64,
    current_seq: u64,
    revoked: bool,
    window: BlockWindowGuard,
    target_block: u64,
) -> Result<InclusionResponse, GuardError> {
    match chain_verdict(issued_seq, current_seq, revoked, window, target_block) {
        Ok(()) => Ok(InclusionResponse { included: true }),
        Err(e) => Err(e),
    }
}

/// Decides the guard chain from observed guard states.
pub fn check_chain(
    issued_seq: u64,
    current_seq: u64,
    revoked: bool,
    window: &BlockWindowGuard,
    target_block: u64,
) -> (r: Result<(), GuardError>)
    ensures
        r == chain_verdict(issued_seq, current_seq, revoked, *window, target_block),
{
    check_epoch(issued_seq, current_seq)?;
    check_revocation(revoked)?;
    window.check(target_block)
}

/// The capability object for one grant. Every call runs the guard chain
/// before it has any effect. `S` is the handle on the simulation backend,
/// which this server only carries.
pub struct BundleAccessServer<S> {
    pub epoch_guard: EpochGuard,
    pub revocation_guard: RevocationGuard,
    pub block_window: BlockWindowGuard,
    pub bundle: BundleSpec,
    pub simulator: S,
}

impl<S> BundleAccessServer<S> {
    /// Runs the three guards in order, as they stand at this moment: the
    /// current epoch and the latch are read, and the chain is decided from
    /// what was read.
    pub fn check_all(&self, target_block: u64) -> (r: Result<(), GuardError>)
        ensures
            exists|current_seq: u64, revoked: bool|
                r == chain_verdict(
                    self.epoch_guard.issued_seq,
                    current_seq,
                    revoked,
                    self.block_window,
                    target_block,
                ),
    {
        let current_seq = self.epoch_guard.current_seq();
        let revoked = self.revocation_guard.is_set();
        check_chain(self.epoch_guard.issued_seq, current_seq, revoked, &self.block_window, target_block)
    }

    /// The first half of a simulation call: once the guards pass, what the
    /// backend is to simulate, a copy of the bundle at the requested block.
    pub fn simulate_request(&self, target_block: u64) -> (r: Result<SimulationRequest, GuardError>)
        ensures
            exists|current_seq: u64, revoked: bool|
                match #[trigger] chain_verdict(
                    self.epoch_guard.issued_seq,
                    current_seq,
                    revoked,
                    self.block_window,
                    target_block,
                ) {
                    Ok(()) => r matches Ok(req) && req.target_block == target_block
                        && req.bundle.view_txs() == self.bundle.view_txs(),
                    Err(e) => r matches Err(e2) && e2 == e,
                },
    {
        match self.check_all(target_block) {
            Err(e) => Err(e),
            Ok(()) => Ok(SimulationRequest { bundle: self.bundle.copy(), target_block }),
        }
    }

    /// Authorises inclusion at `target_block`: once the guards pass, the
    /// answer is `included: true`. The backend is not consulted: `S` has no
    /// bound here, so no method of the simulator can be called, and the
    /// answer is a verdict over the guard state alone.
    pub fn authorize_inclusion(&self, target_block: u64) -> (r: Result<InclusionResponse, GuardError>)
        ensures
            exists|current_seq: u64, revoked: bool|
                r == #[trigger] inclusion_verdict(
                    self.epoch_guard.issued_seq,
                    current_seq,
                    revoked,
                    self.block_window,
                    target_block,
                ),
    {
        let verdict = self.check_all(target_block);
        let ghost observed = choose|current_seq: u64, revoked: bool|
            verdict == #[trigger] chain_verdict(
                self.epoch_guard.issued_seq,
                current_seq,
                revoked,
                self.block_window,
                target_block,
            );
        let r = match verdict {
            Err(e) => Err(e),
            Ok(()) => Ok(InclusionResponse { included: true }),
        };
        assert(r == inclusion_verdict(
            self.epoch_guard.issued_seq,
            observed.0,
            observed.1,
            self.block_window,
            target_block,
        ));
        r
    }
}

/// The second half of a simulation call: the backend's result is returned
/// unchanged, and its failure is passed on as a simulation error.
pub fn simulation_outcome(outcome: Result<SimResult, capnp::Error>) -> (r: Result<SimResult, AccessError>)
    ensures
        match outcome {
            Ok(sim) => r matches Ok(res) && res == sim,
            Err(e) => r matches Err(AccessError::Simulation(err)) && err == e,
        },
{
    match outcome {
        Ok(sim) => Ok(sim),
        Err(e) => Err(AccessError::Simulation(e)),
    }
}

} // verus!
