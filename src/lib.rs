//! Capability-scoped, time-bounded, revocable access to a private transaction
//! bundle.
//!
//! A searcher grafts an epoch-scoped session through a [`MembraneServer`]; the
//! session carries a [`BundleGrant`] whose [`BundleAccessServer`] re-validates
//! three guards (epoch, revocation, block window), in that order, on every call.
use vstd::prelude::*;

pub mod access;
pub mod epoch;
pub mod error;
pub mod grant;
pub mod laws;
pub mod membrane;
pub mod revocation;
pub mod simulation;
pub mod window;

pub use access::{
    chain_verdict, check_chain, inclusion_verdict, simulation_outcome, BundleAccessServer, BundleSpec,
    InclusionResponse, SimResult, SimulationRequest,
};
pub use epoch::{check_epoch, epoch_verdict, Epoch, EpochGuard};
pub use error::{AccessError, GuardError};
pub use grant::{bundle_membrane, BundleGrant, BundleGrantBuilder};
pub use membrane::{MembraneServer, NoExtension, Session, SessionExtensionBuilder, StatusPoller};
pub use revocation::{check_revocation, revocation_verdict, RevocationGuard, RevocationHandle};
pub use simulation::{
    block_param, decode_tx_for_call, gas_from_estimate, SimulationTally, FALLBACK_GAS,
};
pub use window::BlockWindowGuard;

verus! {

} // verus!
