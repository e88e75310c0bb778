//! The failures a capability call can surface.
use vstd::prelude::*;

verus! {

/// Why a guard refused a capability call.
#[derive(Clone, Copy, Debug, PartialEq, Eq, Structural)]
pub enum GuardError {
    /// The epoch observed now differs from the one the capability was minted at.
    StaleEpoch { issued: u64, current: u64 },
    /// The grantor has set the revocation latch.
    Revoked,
    /// The requested block lies outside the grant's inclusive window.
    BlockOutOfWindow { target: u64, valid_from: u64, valid_until: u64 },
}

impl GuardError {
    /// The short tag that prefixes this error's message on the wire.
    pub open spec fn tag_spec(self) -> &'static str {
        match self {
            GuardError::StaleEpoch { .. } => "staleEpoch",
            GuardError::Revoked => "revoked",
            GuardError::BlockOutOfWindow { .. } => "blockOutOfWindow",
        }
    }

    pub fn tag(&self) -> (r: &'static str)
        ensures
            r == self.tag_spec(),
    {
        match self {
            GuardError::StaleEpoch { .. } => "staleEpoch",
            GuardError::Revoked => "revoked",
            GuardError::BlockOutOfWindow { .. } => "blockOutOfWindow",
        }
    }

    /// A human-readable message that starts with the error's tag.
    pub fn message(&self) -> (r: String)
        ensures
            self.tag_spec()@.len() <= r@.len(),
            r@.subrange(0, self.tag_spec()@.len() as int) == self.tag_spec()@,
    {
        let tag = self.tag();
        let mut s = tag.to_owned();
        let detail = match self {
            GuardError::StaleEpoch { .. } => ": session epoch is no longer current",
            GuardError::Revoked => ": bundle grant has been revoked",
            GuardError::BlockOutOfWindow { .. } => ": target block is outside the grant window",
        };
        s.append(detail);
        assert(s@.subrange(0, tag@.len() as int) =~= tag@);
        s
    }
}

/// Why a call on a bundle capability failed: a guard refused it, or the
/// simulation backend reported an error, which is passed on unchanged.
pub enum AccessError {
    Guard(GuardError),
    Simulation(capnp::Error),
}

/// capnp's error value, carried through unchanged from the simulation backend
/// and from session extension builders.
#[verifier::external_type_specification]
#[verifier::external_body]
pub struct ExCapnpError(capnp::Error);

} // verus!
