//! The registry's lifecycle laws, stated once and proved for every
//! well-formed state. Together with the operation contracts in
//! [`crate::registry`] they pin down the whole credit lifecycle:
//! dense monotonic ids, one-shot verification, absorbing retirement,
//! one sale per listing, and role-gated transitions.

use vstd::prelude::*;
use crate::types::Address;
use crate::registry::CarbonXContract;

verus! {

/// Id monotonicity: credit ids are dense and strictly increasing.
/// The i-th registered credit carries id `i + 1`, so the ids of any
/// sequence of successful registrations read 1, 2, 3, ... in order,
/// and the counter always names the next id to be handed out. (That
/// a refused registration does not advance the counter is ensured by
/// `register_credit` itself: on every error the state is unchanged.)
pub proof fn lemma_id_monotonic(s: CarbonXContract)
    requires
        s.wf(),
    ensures
        forall|i: int| 0 <= i < s.credits@.len() ==> (#[trigger] s.credits@[i]).id == i + 1,
        forall|i: int, j: int|
            0 <= i < j < s.credits@.len() ==> s.credits@[i].id < s.credits@[j].id,
        s.next_credit_id == s.credits@.len() + 1,
{
}

/// Verification monotonicity: a credit is verified at most once.
/// Once its `verified` flag stands, no caller whatever can verify it
/// again; `verify_credit` then returns `AlreadyVerified` and leaves
/// the state unchanged, by its own contract.
pub proof fn lemma_verify_at_most_once(s: CarbonXContract, verifier: Address, credit_id: u64)
    requires
        s.wf(),
        s.has_credit(credit_id),
        s.credit_at(credit_id).verified,
    ensures
        !s.can_verify(verifier, credit_id),
{
}

/// Retirement is absorbing: once a credit is retired, no caller can
/// list it, buy it or retire it again, and whatever listing it had
/// reads inactive. The refusing operations return `AlreadyRetired`
/// (or `ListingNotActive` for a purchase) and leave the state
/// unchanged, by their own contracts.
pub proof fn lemma_retirement_absorbing(s: CarbonXContract, caller: Address, credit_id: u64)
    requires
        s.wf(),
        s.has_credit(credit_id),
        s.credit_at(credit_id).retired,
    ensures
        !s.can_list(caller, credit_id),
        !s.can_buy(credit_id),
        !s.can_retire(caller, credit_id),
        s.has_listing(credit_id) ==> !s.listing_at(credit_id).active,
{
}

/// One sale per listing: a listing that has been deactivated (by a
/// purchase or a retirement) admits no further purchase; `buy_credit`
/// then returns `ListingNotActive`, by its own contract. A fresh
/// `list_for_sale` by the new owner is the only way back to market.
pub proof fn lemma_sold_listing_not_resold(s: CarbonXContract, credit_id: u64)
    requires
        s.wf(),
        s.has_listing(credit_id),
        !s.listing_at(credit_id).active,
    ensures
        !s.can_buy(credit_id),
{
}

/// Authorization gating, verifier side: an identity outside the
/// whitelist can neither register nor verify any credit; both
/// operations return `NotVerifier`, by their own contracts.
pub proof fn lemma_non_verifier_gated(
    s: CarbonXContract,
    caller: Address,
    quantity: u64,
    credit_id: u64,
)
    requires
        s.wf(),
        !s.verifiers@.contains(caller),
    ensures
        !s.can_register(caller, quantity),
        !s.can_verify(caller, credit_id),
{
}

/// Authorization gating, owner side: an identity that does not own a
/// credit can neither list nor retire it; both operations return
/// `NotOwner`, by their own contracts.
pub proof fn lemma_non_owner_gated(s: CarbonXContract, caller: Address, credit_id: u64)
    requires
        s.wf(),
        s.has_credit(credit_id),
        s.credit_at(credit_id).owner != caller,
    ensures
        !s.can_list(caller, credit_id),
        !s.can_retire(caller, credit_id),
{
}

} // verus!
