//! Properties of the guards and the guard chain that hold for all inputs.
use crate::access::{chain_verdict, inclusion_verdict, InclusionResponse};
use crate::epoch::epoch_verdict;
use crate::error::GuardError;
use crate::revocation::revocation_verdict;
use crate::window::BlockWindowGuard;
use vstd::prelude::*;

verus! {

/// Each guard passes exactly while its condition is not violated: the epoch
/// guard while the current sequence number is the issued one, the revocation
/// guard while the latch is unset, and the window guard for every target in
/// the inclusive range, bounds included, and for no other.
pub proof fn lemma_guards_pass_iff_not_violated(
    issued: u64,
    current: u64,
    revoked: bool,
    window: BlockWindowGuard,
    target_block: u64,
)
    ensures
        epoch_verdict(issued, issued) is Ok,
        (epoch_verdict(issued, current) is Ok) <==> current == issued,
        (revocation_verdict(revoked) is Ok) <==> !revoked,
        (window.verdict(target_block) is Ok) <==> (window.valid_from <= target_block
            && target_block <= window.valid_until),
        window.valid_from <= window.valid_until ==> window.verdict(window.valid_from) is Ok
            && window.verdict(window.valid_until) is Ok,
{
}

/// The chain reports the first failing guard in the order epoch, revocation,
/// window: a stale epoch is reported whatever the latch and the target are,
/// and a set latch is reported whatever the target is.
pub proof fn lemma_chain_reports_first_failure(
    issued: u64,
    current: u64,
    revoked: bool,
    window: BlockWindowGuard,
    target_block: u64,
)
    ensures
        current != issued ==> chain_verdict(issued, current, revoked, window, target_block)
            == Err::<(), GuardError>(GuardError::StaleEpoch { issued, current }),
        current == issued && revoked ==> chain_verdict(issued, current, revoked, window, target_block)
            == Err::<(), GuardError>(GuardError::Revoked),
        current == issued && !revoked ==> chain_verdict(issued, current, revoked, window, target_block)
            == window.verdict(target_block),
{
}

/// A guard issued at sequence number `issued` fails once the epoch has moved
/// to any other sequence number `next`, while a guard issued at `next` passes
/// then.
pub proof fn lemma_regraft_after_epoch_change(issued: u64, next: u64)
    requires
        next != issued,
    ensures
        epoch_verdict(issued, next) == Err::<(), GuardError>(GuardError::StaleEpoch { issued, current: next }),
        epoch_verdict(next, next) is Ok,
{
}

/// Inclusion is authorised exactly when all three guards pass, and then
/// always with `included: true`; otherwise the chain's first error is
/// returned. The verdict is a function of the guard state alone.
pub proof fn lemma_inclusion_follows_guards(
    issued: u64,
    current: u64,
    revoked: bool,
    window: BlockWindowGuard,
    target_block: u64,
)
    ensures
        (inclusion_verdict(issued, current, revoked, window, target_block) is Ok) <==> (current == issued
            && !revoked && window.valid_from <= target_block && target_block <= window.valid_until),
        inclusion_verdict(issued, current, revoked, window, target_block) is Ok ==> inclusion_verdict(
            issued,
            current,
            revoked,
            window,
            target_block,
        ) == Ok::<InclusionResponse, GuardError>(InclusionResponse { included: true }),
        chain_verdict(issued, current, revoked, window, target_block) matches Err(e)
            ==> inclusion_verdict(issued, current, revoked, window, target_block) == Err::<
            InclusionResponse,
            GuardError,
        >(e),
{
}

} // verus!
