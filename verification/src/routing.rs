//! The notify-routing rules: which chain must be woken after a value move.
//!
//! After the ledger primitive has moved value, some chain's view may have
//! changed in a way that chain cannot observe on its own. The rules below pick
//! the one chain to wake, or none:
//!
//! - **single-hop** (transfers): wake the target chain exactly when it is not
//!   the chain executing the operation;
//! - **two-hop** (claims): when the claim's source lives on the executing
//!   chain, the move is a local-origin transfer and the single-hop rule
//!   applies to the target; when the source is remote, wake the source chain
//!   unconditionally and never the target — the target learns of the effect
//!   through the source chain, outside this core's responsibility.

use vstd::prelude::*;

use crate::accounts::ChainId;

verus! {

/// The single-hop rule: the chain to wake after a transfer executed on
/// `current` towards an account on `target`.
pub open spec fn spec_transfer_notify(current: ChainId, target: ChainId) -> Option<ChainId> {
    if target == current {
        None
    } else {
        Some(target)
    }
}

/// The two-hop rule: the chain to wake after a claim executed on `current`
/// moving value from an account on `source` to an account on `target`.
pub open spec fn spec_claim_notify(current: ChainId, source: ChainId, target: ChainId) -> Option<
    ChainId,
> {
    if source == current {
        spec_transfer_notify(current, target)
    } else {
        Some(source)
    }
}

/// Decides the single-hop notification after a transfer.
pub fn transfer_notify_target(current: ChainId, target: ChainId) -> (r: Option<ChainId>)
    ensures
        r == spec_transfer_notify(current, target),
{
    if target == current {
        None
    } else {
        Some(target)
    }
}

/// Decides the two-hop notification after a claim.
pub fn claim_notify_target(current: ChainId, source: ChainId, target: ChainId) -> (r: Option<
    ChainId,
>)
    ensures
        r == spec_claim_notify(current, source, target),
{
    if source == current {
        transfer_notify_target(current, target)
    } else {
        Some(source)
    }
}

/// Law: a transfer whose target stays on the executing chain wakes nobody.
pub proof fn lemma_local_transfer_notifies_nobody(current: ChainId)
    ensures
        spec_transfer_notify(current, current) == Option::<ChainId>::None,
{
}

/// Law: a transfer towards a remote chain wakes exactly that chain.
pub proof fn lemma_remote_transfer_notifies_target(current: ChainId, target: ChainId)
    requires
        target != current,
    ensures
        spec_transfer_notify(current, target) == Some(target),
{
}

/// Law: a claim whose source lives on the executing chain notifies exactly as
/// a plain transfer towards the same target would.
pub proof fn lemma_local_claim_notifies_like_transfer(current: ChainId, target: ChainId)
    ensures
        spec_claim_notify(current, current, target) == spec_transfer_notify(current, target),
{
}

/// Law: a claim whose source is remote wakes exactly the source chain,
/// whatever the target chain is — the target is never notified directly.
pub proof fn lemma_remote_claim_notifies_source(current: ChainId, source: ChainId, target: ChainId)
    requires
        source != current,
    ensures
        spec_claim_notify(current, source, target) == Some(source),
        spec_claim_notify(current, source, target) != Some(target) || target == source,
{
}

} // verus!
