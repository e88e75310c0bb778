//! The bundle resource's session extension: a grant carrying a freshly minted
//! bundle capability.
use crate::access::{BundleAccessServer, BundleSpec};
use crate::epoch::{Epoch, EpochGuard};
use crate::membrane::{MembraneServer, SessionExtensionBuilder};
use crate::revocation::{RevocationGuard, RevocationHandle};
use crate::window::BlockWindowGuard;
use tokio::sync::watch::Receiver;
use vstd::prelude::*;

verus! {

/// What a session for the bundle resource carries: the validity window, the
/// builder's public key and the capability. No field holds transaction bytes.
pub struct BundleGrant<S> {
    pub valid_from_block: u64,
    pub valid_until_block: u64,
    pub builder_pubkey: Vec<u8>,
    pub bundle_access: Option<BundleAccessServer<S>>,
}

impl<S> BundleGrant<S> {
    /// A grant with nothing filled in yet.
    pub fn empty() -> (r: Self)
        ensures
            r.valid_from_block == 0,
            r.valid_until_block == 0,
            r.builder_pubkey@.len() == 0,
            r.bundle_access is None,
    {
        BundleGrant {
            valid_from_block: 0,
            valid_until_block: 0,
            builder_pubkey: Vec::new(),
            bundle_access: None,
        }
    }
}

/// Fills bundle grants during `graft`, minting one capability server per call.
pub struct BundleGrantBuilder<S> {
    pub bundle: BundleSpec,
    pub valid_from: u64,
    pub valid_until: u64,
    pub builder_pubkey: Vec<u8>,
    pub simulator: S,
    pub revocation_guard: RevocationGuard,
}

impl<S: Clone> BundleGrantBuilder<S> {
    /// `out` holds this builder's window and key, and a capability server
    /// anchored at `issued_seq` over this builder's window and bundle, with a
    /// clone of this builder's simulator handle.
    pub open spec fn grant_filled(&self, issued_seq: u64, out: BundleGrant<S>) -> bool {
        &&& out.valid_from_block == self.valid_from
        &&& out.valid_until_block == self.valid_until
        &&& out.builder_pubkey@ == self.builder_pubkey@
        &&& out.bundle_access matches Some(server) && {
            &&& server.epoch_guard.issued_seq == issued_seq
            &&& server.block_window == (BlockWindowGuard { valid_from: self.valid_from, valid_until: self.valid_until })
            &&& server.bundle.view_txs() == self.bundle.view_txs()
            &&& cloned(self.simulator, server.simulator)
        }
    }

    /// A capability server bound to `guard`'s epoch, this grant's window and a
    /// copy of the bundle, sharing this builder's revocation latch.
    pub fn mint_server(&self, guard: &EpochGuard) -> (r: BundleAccessServer<S>)
        ensures
            r.epoch_guard.issued_seq == guard.issued_seq,
            r.block_window == (BlockWindowGuard { valid_from: self.valid_from, valid_until: self.valid_until }),
            r.bundle.view_txs() == self.bundle.view_txs(),
            cloned(self.simulator, r.simulator),
    {
        BundleAccessServer {
            epoch_guard: guard.duplicate(),
            revocation_guard: self.revocation_guard.clone(),
            block_window: BlockWindowGuard { valid_from: self.valid_from, valid_until: self.valid_until },
            bundle: self.bundle.copy(),
            simulator: self.simulator.clone(),
        }
    }

    /// Writes the window and the public key into `out` and installs a newly
    /// minted capability server.
    pub fn fill(&self, guard: &EpochGuard, out: &mut BundleGrant<S>)
        ensures
            self.grant_filled(guard.issued_seq, *final(out)),
    {
        out.valid_from_block = self.valid_from;
        out.valid_until_block = self.valid_until;
        let key = self.builder_pubkey.clone();
        assert(key@ =~= self.builder_pubkey@);
        out.builder_pubkey = key;
        out.bundle_access = Some(self.mint_server(guard));
    }
}

impl<S: Clone> SessionExtensionBuilder<BundleGrant<S>> for BundleGrantBuilder<S> {
    open spec fn filled(&self, issued_seq: u64, out: BundleGrant<S>) -> bool {
        self.grant_filled(issued_seq, out)
    }

    open spec fn infallible(&self) -> bool {
        true
    }

    fn build(&self, guard: &EpochGuard, out: &mut BundleGrant<S>) -> (r: Result<(), capnp::Error>)
        ensures
            r is Ok,
    {
        self.fill(guard, out);
        Ok(())
    }
}

/// Sets up a bundle grant: a fresh revocation latch, whose handle goes to the
/// caller, and a membrane that mints grants over `bundle` for the window
/// `[valid_from, valid_until]`.
pub fn bundle_membrane<S>(
    epoch_rx: Receiver<Epoch>,
    bundle: BundleSpec,
    valid_from: u64,
    valid_until: u64,
    builder_pubkey: Vec<u8>,
    simulator: S,
) -> (r: (RevocationHandle, MembraneServer<BundleGrantBuilder<S>>))
    ensures
        r.1.builder.bundle == bundle,
        r.1.builder.valid_from == valid_from,
        r.1.builder.valid_until == valid_until,
        r.1.builder.builder_pubkey == builder_pubkey,
        r.1.builder.simulator == simulator,
        r.1.receiver == epoch_rx,
{
    let (handle, guard) = RevocationGuard::new();
    let grant_builder = BundleGrantBuilder {
        bundle,
        valid_from,
        valid_until,
        builder_pubkey,
        simulator,
        revocation_guard: guard,
    };
    (handle, MembraneServer::new(epoch_rx, grant_builder))
}

} // verus!
