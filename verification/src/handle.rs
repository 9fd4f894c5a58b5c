//! The four mutating operations of the order book.
//!
//! Each operation either fails, leaving the store untouched, or commits
//! its whole effect; the contract of each says that what happened is
//! exactly what the matching transition function in `model` prescribes
//! for the old state, including which error comes back on which input.

use vstd::prelude::*;

use crate::error::ContractError;
use crate::model::asset_key;
use crate::model::spec_create;
use crate::model::spec_delist;
use crate::model::spec_edit;
use crate::model::spec_rent;
use crate::msg::GrantInstruction;
use crate::msg::LendDetails;
use crate::msg::PaymentInstruction;
use crate::msg::RentDetails;
use crate::msg::ReturnInstruction;
use crate::state::lemma_key_at_index;
use crate::state::lemma_table_push;
use crate::state::lemma_table_remove;
use crate::state::lemma_table_update;
use crate::state::OrderBook;
use crate::MAX_DURATION;
use crate::MIN_DURATION;

verus! {

impl OrderBook {
    /// Publish a lend offer for the asset the custody collaborator just
    /// handed over.  Refused when the duration leaves the policy bounds
    /// or an offer for the same asset identity is already listed.
    pub fn create_lend_order(
        &mut self,
        nft_id: String,
        nft_contract: String,
        lender: String,
        lend_amount: u128,
        lend_time: u64,
    ) -> (res: Result<(), ContractError>)
        requires
            old(self).wf(),
        ensures
            final(self).wf(),
            final(self).config == old(self).config,
            match spec_create(
                old(self)@,
                nft_id@,
                nft_contract@,
                lender@,
                lend_amount as int,
                lend_time as int,
            ) {
                Ok(m) => res is Ok && final(self)@ == m,
                Err(e) => res == Err::<(), ContractError>(e) && final(self)@ == old(self)@,
            },
    {
        if lend_time < MIN_DURATION {
            return Err(ContractError::DurationTooShort);
        }
        if lend_time > MAX_DURATION {
            return Err(ContractError::DurationTooLong);
        }
        if self.find_lend(&nft_id, &nft_contract).is_some() {
            return Err(ContractError::AlreadyListed);
        }
        let d = LendDetails { lender, lend_amount, lend_time, nft_id, nft_contract };
        proof {
            lemma_table_push(self.lend_offers@, d);
            assert forall|i: int| 0 <= i < self.lend_offers@.push(d).len() implies MIN_DURATION
                <= (#[trigger] self.lend_offers@.push(d)[i]).lend_time <= MAX_DURATION by {
                if i < self.lend_offers@.len() {
                    assert(self.lend_offers@.push(d)[i] == self.lend_offers@[i]);
                }
            }
        }
        self.lend_offers.push(d);
        Ok(())
    }

    /// Replace the price and duration of a listed offer.  Only the
    /// recorded lender may do so, and the new duration must respect the
    /// policy bounds; the lender and the asset identity are preserved.
    pub fn edit_lend_order(
        &mut self,
        nft_id: String,
        nft_contract: String,
        caller: String,
        lend_amount: u128,
        lend_time: u64,
    ) -> (res: Result<(), ContractError>)
        requires
            old(self).wf(),
        ensures
            final(self).wf(),
            final(self).config == old(self).config,
            match spec_edit(
                old(self)@,
                nft_id@,
                nft_contract@,
                caller@,
                lend_amount as int,
                lend_time as int,
            ) {
                Ok(m) => res is Ok && final(self)@ == m,
                Err(e) => res == Err::<(), ContractError>(e) && final(self)@ == old(self)@,
            },
    {
        let idx = match self.find_lend(&nft_id, &nft_contract) {
            None => {
                return Err(ContractError::NotFound);
            },
            Some(i) => i,
        };
        proof {
            lemma_key_at_index(
                self.lend_offers@,
                asset_key(nft_contract@, nft_id@),
                idx as int,
            );
        }
        if !(self.lend_offers[idx].lender == caller) {
            return Err(ContractError::Unauthorized);
        }
        if lend_time < MIN_DURATION {
            return Err(ContractError::DurationTooShort);
        }
        if lend_time > MAX_DURATION {
            return Err(ContractError::DurationTooLong);
        }
        let lender = self.lend_offers[idx].lender.clone();
        let d = LendDetails { lender, lend_amount, lend_time, nft_id, nft_contract };
        proof {
            lemma_table_update(self.lend_offers@, idx as int, d);
            assert forall|i: int|
                0 <= i < self.lend_offers@.update(idx as int, d).len() implies MIN_DURATION <= (
                #[trigger] self.lend_offers@.update(idx as int, d)[i]).lend_time
                <= MAX_DURATION by {
                if i != idx {
                    assert(self.lend_offers@.update(idx as int, d)[i] == self.lend_offers@[i]);
                }
            }
        }
        self.lend_offers[idx] = d;
        Ok(())
    }

    /// Take a listed offer: record the rental and emit the payment to
    /// the lender and the usage grant to the caller, both expiring at
    /// `now` plus the offered duration.  A prior (typically lapsed)
    /// rental record for the same key is overwritten unconditionally.
    pub fn rent(
        &mut self,
        nft_id: String,
        nft_contract: String,
        caller: String,
        now: u64,
    ) -> (res: Result<(PaymentInstruction, GrantInstruction), ContractError>)
        requires
            old(self).wf(),
            now <= u64::MAX - MAX_DURATION,
        ensures
            final(self).wf(),
            final(self).config == old(self).config,
            match spec_rent(old(self)@, nft_id@, nft_contract@, caller@, now as int) {
                Ok(out) => {
                    &&& res is Ok
                    &&& final(self)@ == out.0
                    &&& (res->Ok_0).0@ == out.1
                    &&& (res->Ok_0).1@ == out.2
                },
                Err(e) => res == Err::<(PaymentInstruction, GrantInstruction), ContractError>(e)
                    && final(self)@ == old(self)@,
            },
    {
        let idx = match self.find_lend(&nft_id, &nft_contract) {
            None => {
                return Err(ContractError::NotFound);
            },
            Some(i) => i,
        };
        proof {
            lemma_key_at_index(
                self.lend_offers@,
                asset_key(nft_contract@, nft_id@),
                idx as int,
            );
            assert(MIN_DURATION <= self.lend_offers@[idx as int].lend_time <= MAX_DURATION);
        }
        if self.lend_offers[idx].lender == caller {
            return Err(ContractError::SelfRentForbidden);
        }
        let lender = self.lend_offers[idx].lender.clone();
        let amount = self.lend_offers[idx].lend_amount;
        let lend_time = self.lend_offers[idx].lend_time;
        let expiration = now + lend_time;
        let d = RentDetails {
            renter: caller.clone(),
            rent_amount: amount,
            expiration,
            nft_id: nft_id.clone(),
            nft_contract: nft_contract.clone(),
        };
        match self.find_rent(&nft_id, &nft_contract) {
            Some(r) => {
                proof {
                    lemma_key_at_index(
                        self.rent_orders@,
                        asset_key(nft_contract@, nft_id@),
                        r as int,
                    );
                    lemma_table_update(self.rent_orders@, r as int, d);
                }
                self.rent_orders[r] = d;
            },
            None => {
                proof {
                    lemma_table_push(self.rent_orders@, d);
                }
                self.rent_orders.push(d);
            },
        }
        Ok((
            PaymentInstruction { recipient: lender, amount },
            GrantInstruction { user: caller, until: expiration, nft_id, nft_contract },
        ))
    }

    /// Take a listed offer down and have the asset returned to its
    /// lender.  Only the recorded lender may do so, and not while an
    /// unexpired rental exists; an expired rental record is left behind
    /// as stale.
    pub fn delist(
        &mut self,
        nft_id: String,
        nft_contract: String,
        caller: String,
        now: u64,
    ) -> (res: Result<ReturnInstruction, ContractError>)
        requires
            old(self).wf(),
        ensures
            final(self).wf(),
            final(self).config == old(self).config,
            match spec_delist(old(self)@, nft_id@, nft_contract@, caller@, now as int) {
                Ok(out) => {
                    &&& res is Ok
                    &&& final(self)@ == out.0
                    &&& (res->Ok_0)@ == out.1
                },
                Err(e) => res == Err::<ReturnInstruction, ContractError>(e) && final(self)@
                    == old(self)@,
            },
    {
        let idx = match self.find_lend(&nft_id, &nft_contract) {
            None => {
                return Err(ContractError::NotFound);
            },
            Some(i) => i,
        };
        proof {
            lemma_key_at_index(
                self.lend_offers@,
                asset_key(nft_contract@, nft_id@),
                idx as int,
            );
        }
        if !(self.lend_offers[idx].lender == caller) {
            return Err(ContractError::Unauthorized);
        }
        match self.find_rent(&nft_id, &nft_contract) {
            Some(r) => {
                proof {
                    lemma_key_at_index(
                        self.rent_orders@,
                        asset_key(nft_contract@, nft_id@),
                        r as int,
                    );
                }
                if self.rent_orders[r].expiration > now {
                    return Err(ContractError::StillRented);
                }
            },
            None => {},
        }
        proof {
            lemma_table_remove(self.lend_offers@, idx as int);
            assert forall|i: int|
                0 <= i < self.lend_offers@.remove(idx as int).len() implies MIN_DURATION <= (
                #[trigger] self.lend_offers@.remove(idx as int)[i]).lend_time <= MAX_DURATION by {
                if i < idx {
                    assert(self.lend_offers@.remove(idx as int)[i] == self.lend_offers@[i]);
                } else {
                    assert(self.lend_offers@.remove(idx as int)[i] == self.lend_offers@[i + 1]);
                }
            }
        }
        let d = self.lend_offers.remove(idx);
        Ok(ReturnInstruction { recipient: d.lender, nft_id, nft_contract })
    }
}

} // verus!
