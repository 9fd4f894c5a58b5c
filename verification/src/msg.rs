//! The records the order book stores and the values it hands outward:
//! query messages and the instructions emitted towards the custody and
//! payment collaborators.

use vstd::prelude::*;

use crate::model::asset_key;
use crate::model::AssetKey;
use crate::model::GrantModel;
use crate::model::LendModel;
use crate::model::PaymentModel;
use crate::model::RentModel;
use crate::model::ReturnModel;

verus! {

/// One published lend offer, as stored.
#[derive(Debug)]
pub struct LendDetails {
    /// The lender's principal.
    pub lender: String,
    /// The price asked for one rental.
    pub lend_amount: u128,
    /// The rental duration offered, in seconds.
    pub lend_time: u64,
    /// The token identifier.
    pub nft_id: String,
    /// The collection (custody contract) identifier.
    pub nft_contract: String,
}

impl View for LendDetails {
    type V = LendModel;

    open spec fn view(&self) -> LendModel {
        LendModel {
            lender: self.lender@,
            lend_amount: self.lend_amount as int,
            lend_time: self.lend_time as int,
            nft_id: self.nft_id@,
            nft_contract: self.nft_contract@,
        }
    }
}

impl LendDetails {
    /// The asset identity this offer is keyed by.
    pub open spec fn key(&self) -> AssetKey {
        asset_key(self.nft_contract@, self.nft_id@)
    }
}

impl Clone for LendDetails {
    fn clone(&self) -> (res: Self)
        ensures
            res == *self,
    {
        LendDetails {
            lender: self.lender.clone(),
            lend_amount: self.lend_amount,
            lend_time: self.lend_time,
            nft_id: self.nft_id.clone(),
            nft_contract: self.nft_contract.clone(),
        }
    }
}

/// One accepted rental, as stored.
#[derive(Debug)]
pub struct RentDetails {
    /// The renter's principal.
    pub renter: String,
    /// The price that was paid.
    pub rent_amount: u128,
    /// Absolute time at which the rental lapses.
    pub expiration: u64,
    /// The token identifier.
    pub nft_id: String,
    /// The collection (custody contract) identifier.
    pub nft_contract: String,
}

impl View for RentDetails {
    type V = RentModel;

    open spec fn view(&self) -> RentModel {
        RentModel {
            renter: self.renter@,
            rent_amount: self.rent_amount as int,
            expiration: self.expiration as int,
            nft_id: self.nft_id@,
            nft_contract: self.nft_contract@,
        }
    }
}

impl RentDetails {
    /// The asset identity this rental is keyed by.
    pub open spec fn key(&self) -> AssetKey {
        asset_key(self.nft_contract@, self.nft_id@)
    }
}

impl Clone for RentDetails {
    fn clone(&self) -> (res: Self)
        ensures
            res == *self,
    {
        RentDetails {
            renter: self.renter.clone(),
            rent_amount: self.rent_amount,
            expiration: self.expiration,
            nft_id: self.nft_id.clone(),
            nft_contract: self.nft_contract.clone(),
        }
    }
}

/// Instruction to the payment collaborator: move `amount` out of the
/// contract's custody to `recipient`.
#[derive(Debug)]
pub struct PaymentInstruction {
    /// Who is to be paid.
    pub recipient: String,
    /// How much is to be moved.
    pub amount: u128,
}

impl View for PaymentInstruction {
    type V = PaymentModel;

    open spec fn view(&self) -> PaymentModel {
        PaymentModel { recipient: self.recipient@, amount: self.amount as int }
    }
}

/// Instruction to the custody collaborator: authorize `user` to use the
/// asset until the absolute time `until`.
#[derive(Debug)]
pub struct GrantInstruction {
    /// Who receives the usage grant.
    pub user: String,
    /// Absolute time at which the grant lapses.
    pub until: u64,
    /// The token identifier.
    pub nft_id: String,
    /// The collection (custody contract) identifier.
    pub nft_contract: String,
}

impl View for GrantInstruction {
    type V = GrantModel;

    open spec fn view(&self) -> GrantModel {
        GrantModel {
            user: self.user@,
            until: self.until as int,
            nft_id: self.nft_id@,
            nft_contract: self.nft_contract@,
        }
    }
}

/// Instruction to the custody collaborator: hand the asset back to
/// `recipient`.
#[derive(Debug)]
pub struct ReturnInstruction {
    /// Who gets the asset back.
    pub recipient: String,
    /// The token identifier.
    pub nft_id: String,
    /// The collection (custody contract) identifier.
    pub nft_contract: String,
}

impl View for ReturnInstruction {
    type V = ReturnModel;

    open spec fn view(&self) -> ReturnModel {
        ReturnModel {
            recipient: self.recipient@,
            nft_id: self.nft_id@,
            nft_contract: self.nft_contract@,
        }
    }
}

/// A read-only question to the order book.
#[derive(Debug)]
pub enum QueryMsg {
    /// Ask for the contract configuration record.
    ContractInfo {},
    /// Ask for the lend offer stored under the derived key, if any.
    LendOrder {
        /// The token identifier.
        token_id: String,
        /// The collection (custody contract) identifier.
        cw721_contract: String,
    },
    /// Ask for the rent order stored under the derived key, if any.
    RentOrder {
        /// The token identifier.
        token_id: String,
        /// The collection (custody contract) identifier.
        cw721_contract: String,
    },
}

/// Request to migrate the contract's persisted state; it carries nothing
/// and asks for nothing to change.
#[derive(Debug)]
pub struct MigrateMsg {}

} // verus!
