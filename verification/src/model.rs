//! Mathematical model of the order book.
//!
//! The store is modelled as two maps keyed by the asset identity, a pair
//! of the collection (custody contract) identifier and the token
//! identifier.  Each public operation of the order book is described by a
//! spec-level transition function over this model; the executable code in
//! `handle` promises in its contracts to agree with these functions, and
//! the proof functions at the bottom of this module state the laws of the
//! state machine once and for all inputs.

use vstd::prelude::*;

use crate::error::ContractError;
use crate::MAX_DURATION;
use crate::MIN_DURATION;

verus! {

/// Identity of one asset instance: the collection identifier paired with
/// the token identifier.  A structured pair cannot alias two distinct
/// (collection, token) combinations the way a delimiter-free string
/// concatenation could.
pub type AssetKey = (Seq<char>, Seq<char>);

/// The derived key for a token of a collection.
pub open spec fn asset_key(nft_contract: Seq<char>, nft_id: Seq<char>) -> AssetKey {
    (nft_contract, nft_id)
}

/// Model of one published lend offer.
pub ghost struct LendModel {
    /// The lender's principal.
    pub lender: Seq<char>,
    /// The price asked for one rental.
    pub lend_amount: int,
    /// The rental duration offered, in seconds.
    pub lend_time: int,
    /// The token identifier.
    pub nft_id: Seq<char>,
    /// The collection identifier.
    pub nft_contract: Seq<char>,
}

/// Model of one accepted rental.
pub ghost struct RentModel {
    /// The renter's principal.
    pub renter: Seq<char>,
    /// The price that was paid.
    pub rent_amount: int,
    /// Absolute time at which the rental lapses.
    pub expiration: int,
    /// The token identifier.
    pub nft_id: Seq<char>,
    /// The collection identifier.
    pub nft_contract: Seq<char>,
}

/// Model of the whole store: the two keyed tables.
pub ghost struct BookModel {
    /// Lend offers, at most one per asset identity.
    pub lends: Map<AssetKey, LendModel>,
    /// Active (possibly lapsed) rentals, at most one per asset identity.
    pub rents: Map<AssetKey, RentModel>,
}

/// Model of an instruction to the payment collaborator: move `amount`
/// from the contract's custody to `recipient`.
pub ghost struct PaymentModel {
    pub recipient: Seq<char>,
    pub amount: int,
}

/// Model of an instruction to the custody collaborator: let `user` use
/// the asset until `until`.
pub ghost struct GrantModel {
    pub user: Seq<char>,
    pub until: int,
    pub nft_id: Seq<char>,
    pub nft_contract: Seq<char>,
}

/// Model of an instruction to the custody collaborator: hand the asset
/// back to `recipient`.
pub ghost struct ReturnModel {
    pub recipient: Seq<char>,
    pub nft_id: Seq<char>,
    pub nft_contract: Seq<char>,
}

/// Publication of a lend offer, triggered by the custody collaborator
/// handing the asset over.  The offer is accepted exactly when the
/// duration lies within the policy bounds and no offer is listed yet for
/// the same asset identity.
pub open spec fn spec_create(
    m: BookModel,
    nft_id: Seq<char>,
    nft_contract: Seq<char>,
    lender: Seq<char>,
    lend_amount: int,
    lend_time: int,
) -> Result<BookModel, ContractError> {
    let k = asset_key(nft_contract, nft_id);
    if lend_time < MIN_DURATION as int {
        Err(ContractError::DurationTooShort)
    } else if lend_time > MAX_DURATION as int {
        Err(ContractError::DurationTooLong)
    } else if m.lends.contains_key(k) {
        Err(ContractError::AlreadyListed)
    } else {
        Ok(BookModel {
            lends: m.lends.insert(
                k,
                LendModel { lender, lend_amount, lend_time, nft_id, nft_contract },
            ),
            rents: m.rents,
        })
    }
}

/// Replacement of the terms of a listed offer by its lender.  The lender
/// and the asset identity are preserved; only price and duration change.
pub open spec fn spec_edit(
    m: BookModel,
    nft_id: Seq<char>,
    nft_contract: Seq<char>,
    caller: Seq<char>,
    lend_amount: int,
    lend_time: int,
) -> Result<BookModel, ContractError> {
    let k = asset_key(nft_contract, nft_id);
    if !m.lends.contains_key(k) {
        Err(ContractError::NotFound)
    } else if m.lends[k].lender != caller {
        Err(ContractError::Unauthorized)
    } else if lend_time < MIN_DURATION as int {
        Err(ContractError::DurationTooShort)
    } else if lend_time > MAX_DURATION as int {
        Err(ContractError::DurationTooLong)
    } else {
        Ok(BookModel {
            lends: m.lends.insert(
                k,
                LendModel {
                    lender: m.lends[k].lender,
                    lend_amount,
                    lend_time,
                    nft_id,
                    nft_contract,
                },
            ),
            rents: m.rents,
        })
    }
}

/// Removal of a listed offer by its lender, returning the asset from
/// custody.  Forbidden while a rental for the same key has not lapsed; a
/// lapsed rental record is left in place and merely goes stale.
pub open spec fn spec_delist(
    m: BookModel,
    nft_id: Seq<char>,
    nft_contract: Seq<char>,
    caller: Seq<char>,
    now: int,
) -> Result<(BookModel, ReturnModel), ContractError> {
    let k = asset_key(nft_contract, nft_id);
    if !m.lends.contains_key(k) {
        Err(ContractError::NotFound)
    } else if m.lends[k].lender != caller {
        Err(ContractError::Unauthorized)
    } else if m.rents.contains_key(k) && m.rents[k].expiration > now {
        Err(ContractError::StillRented)
    } else {
        Ok((
            BookModel { lends: m.lends.remove(k), rents: m.rents },
            ReturnModel { recipient: m.lends[k].lender, nft_id, nft_contract },
        ))
    }
}

/// Acceptance of a listed offer by a renter at time `now`.  Any prior
/// rental record for the key is overwritten unconditionally; a rental is
/// refused only when no offer is listed or the lender rents from itself.
/// Two instructions are emitted: pay the offer price to the lender, and
/// grant the renter usage until `now` plus the offered duration.
pub open spec fn spec_rent(
    m: BookModel,
    nft_id: Seq<char>,
    nft_contract: Seq<char>,
    caller: Seq<char>,
    now: int,
) -> Result<(BookModel, PaymentModel, GrantModel), ContractError> {
    let k = asset_key(nft_contract, nft_id);
    if !m.lends.contains_key(k) {
        Err(ContractError::NotFound)
    } else if m.lends[k].lender == caller {
        Err(ContractError::SelfRentForbidden)
    } else {
        let offer = m.lends[k];
        let expiration = now + offer.lend_time;
        Ok((
            BookModel {
                lends: m.lends,
                rents: m.rents.insert(
                    k,
                    RentModel {
                        renter: caller,
                        rent_amount: offer.lend_amount,
                        expiration,
                        nft_id,
                        nft_contract,
                    },
                ),
            },
            PaymentModel { recipient: offer.lender, amount: offer.lend_amount },
            GrantModel { user: caller, until: expiration, nft_id, nft_contract },
        ))
    }
}

/// A lend offer for an unlisted asset identity is accepted exactly when
/// the requested duration lies within the policy bounds.
pub proof fn lemma_create_duration_bounds(
    m: BookModel,
    nft_id: Seq<char>,
    nft_contract: Seq<char>,
    lender: Seq<char>,
    lend_amount: int,
    lend_time: int,
)
    requires
        !m.lends.contains_key(asset_key(nft_contract, nft_id)),
    ensures
        spec_create(m, nft_id, nft_contract, lender, lend_amount, lend_time) is Ok
            <==> MIN_DURATION as int <= lend_time <= MAX_DURATION as int,
{
}

/// Creating a second offer for the same asset identity without an
/// intervening delist is refused as already listed, whenever the second
/// request's duration is itself within bounds.
pub proof fn lemma_create_twice_already_listed(
    m: BookModel,
    nft_id: Seq<char>,
    nft_contract: Seq<char>,
    lender1: Seq<char>,
    amount1: int,
    time1: int,
    lender2: Seq<char>,
    amount2: int,
    time2: int,
)
    requires
        spec_create(m, nft_id, nft_contract, lender1, amount1, time1) is Ok,
        MIN_DURATION as int <= time2 <= MAX_DURATION as int,
    ensures
        spec_create(
            spec_create(m, nft_id, nft_contract, lender1, amount1, time1)->Ok_0,
            nft_id,
            nft_contract,
            lender2,
            amount2,
            time2,
        ) == Err::<BookModel, ContractError>(ContractError::AlreadyListed),
{
}

/// Renting an asset identity with no listed offer fails as not found.
pub proof fn lemma_rent_unlisted_not_found(
    m: BookModel,
    nft_id: Seq<char>,
    nft_contract: Seq<char>,
    caller: Seq<char>,
    now: int,
)
    requires
        !m.lends.contains_key(asset_key(nft_contract, nft_id)),
    ensures
        spec_rent(m, nft_id, nft_contract, caller, now) == Err::<
            (BookModel, PaymentModel, GrantModel),
            ContractError,
        >(ContractError::NotFound),
{
}

/// A lender renting its own offer is refused, whatever the rental state.
pub proof fn lemma_rent_self_forbidden(
    m: BookModel,
    nft_id: Seq<char>,
    nft_contract: Seq<char>,
    now: int,
)
    requires
        m.lends.contains_key(asset_key(nft_contract, nft_id)),
    ensures
        spec_rent(
            m,
            nft_id,
            nft_contract,
            m.lends[asset_key(nft_contract, nft_id)].lender,
            now,
        ) == Err::<(BookModel, PaymentModel, GrantModel), ContractError>(
            ContractError::SelfRentForbidden,
        ),
{
}

/// A successful rental taken at time `now` against an offer of duration
/// `d` stores a rent order whose expiration is exactly `now + d`, whose
/// renter is the caller and whose price is the offer's; the usage grant
/// runs until the same instant and the payment goes to the lender.
pub proof fn lemma_rent_expiration(
    m: BookModel,
    nft_id: Seq<char>,
    nft_contract: Seq<char>,
    caller: Seq<char>,
    now: int,
)
    requires
        spec_rent(m, nft_id, nft_contract, caller, now) is Ok,
    ensures
        ({
            let k = asset_key(nft_contract, nft_id);
            let (book, pay, grant) = spec_rent(m, nft_id, nft_contract, caller, now)->Ok_0;
            &&& book.rents.contains_key(k)
            &&& book.rents[k].expiration == now + m.lends[k].lend_time
            &&& book.rents[k].renter == caller
            &&& book.rents[k].rent_amount == m.lends[k].lend_amount
            &&& grant.until == now + m.lends[k].lend_time
            &&& grant.user == caller
            &&& pay.recipient == m.lends[k].lender
            &&& pay.amount == m.lends[k].lend_amount
        }),
{
}

/// Delisting by anyone but the recorded lender is refused, whatever the
/// rental state.
pub proof fn lemma_delist_non_lender_unauthorized(
    m: BookModel,
    nft_id: Seq<char>,
    nft_contract: Seq<char>,
    caller: Seq<char>,
    now: int,
)
    requires
        m.lends.contains_key(asset_key(nft_contract, nft_id)),
        m.lends[asset_key(nft_contract, nft_id)].lender != caller,
    ensures
        spec_delist(m, nft_id, nft_contract, caller, now) == Err::<
            (BookModel, ReturnModel),
            ContractError,
        >(ContractError::Unauthorized),
{
}

/// Delisting by the lender succeeds when no rental record exists: the
/// offer is removed and the asset is returned to the lender.
pub proof fn lemma_delist_no_rent(
    m: BookModel,
    nft_id: Seq<char>,
    nft_contract: Seq<char>,
    now: int,
)
    requires
        m.lends.contains_key(asset_key(nft_contract, nft_id)),
        !m.rents.contains_key(asset_key(nft_contract, nft_id)),
    ensures
        ({
            let k = asset_key(nft_contract, nft_id);
            let r = spec_delist(m, nft_id, nft_contract, m.lends[k].lender, now);
            &&& r is Ok
            &&& r->Ok_0.0.lends == m.lends.remove(k)
            &&& r->Ok_0.0.rents == m.rents
            &&& r->Ok_0.1.recipient == m.lends[k].lender
        }),
{
}

/// Delisting by the lender while a rental record exists is refused
/// exactly as long as the rental has not lapsed, and goes through, with
/// the offer removed, from the moment the current time reaches the
/// rental's expiration.
pub proof fn lemma_delist_rented(
    m: BookModel,
    nft_id: Seq<char>,
    nft_contract: Seq<char>,
    now: int,
)
    requires
        m.lends.contains_key(asset_key(nft_contract, nft_id)),
        m.rents.contains_key(asset_key(nft_contract, nft_id)),
    ensures
        ({
            let k = asset_key(nft_contract, nft_id);
            let r = spec_delist(m, nft_id, nft_contract, m.lends[k].lender, now);
            &&& m.rents[k].expiration > now ==> r == Err::<(BookModel, ReturnModel),
                ContractError,
            >(ContractError::StillRented)
            &&& now >= m.rents[k].expiration ==> r is Ok && r->Ok_0.0.lends == m.lends.remove(k)
        }),
{
}

/// Editing by anyone but the recorded lender is refused.
pub proof fn lemma_edit_non_lender_unauthorized(
    m: BookModel,
    nft_id: Seq<char>,
    nft_contract: Seq<char>,
    caller: Seq<char>,
    lend_amount: int,
    lend_time: int,
)
    requires
        m.lends.contains_key(asset_key(nft_contract, nft_id)),
        m.lends[asset_key(nft_contract, nft_id)].lender != caller,
    ensures
        spec_edit(m, nft_id, nft_contract, caller, lend_amount, lend_time) == Err::<
            BookModel,
            ContractError,
        >(ContractError::Unauthorized),
{
}

/// Editing by the lender with a duration within bounds overwrites the
/// offer's price and duration, preserving the lender and the asset
/// identity, and touches nothing else.
pub proof fn lemma_edit_by_lender(
    m: BookModel,
    nft_id: Seq<char>,
    nft_contract: Seq<char>,
    lend_amount: int,
    lend_time: int,
)
    requires
        m.lends.contains_key(asset_key(nft_contract, nft_id)),
        MIN_DURATION as int <= lend_time <= MAX_DURATION as int,
    ensures
        ({
            let k = asset_key(nft_contract, nft_id);
            let r = spec_edit(m, nft_id, nft_contract, m.lends[k].lender, lend_amount, lend_time);
            &&& r is Ok
            &&& r->Ok_0.lends == m.lends.insert(
                k,
                LendModel {
                    lender: m.lends[k].lender,
                    lend_amount,
                    lend_time,
                    nft_id,
                    nft_contract,
                },
            )
            &&& r->Ok_0.lends[k].lender == m.lends[k].lender
            &&& r->Ok_0.rents == m.rents
        }),
{
}

} // verus!
