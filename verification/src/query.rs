//! Read-only views of the order book.

use vstd::prelude::*;

use crate::model::asset_key;
use crate::msg::LendDetails;
use crate::msg::QueryMsg;
use crate::msg::RentDetails;
use crate::state::lemma_key_at_index;
use crate::state::ContractInfo;
use crate::state::OrderBook;

verus! {

/// The answer to a `QueryMsg`, one variant per question.
#[derive(Debug)]
pub enum QueryAnswer {
    /// The contract configuration record.
    Config(ContractInfo),
    /// The lend offer under the derived key, if any.
    LendOrder(Option<LendDetails>),
    /// The rent order under the derived key, if any.
    RentOrder(Option<RentDetails>),
}

impl OrderBook {
    /// A copy of the configuration record.
    pub fn config(&self) -> (r: ContractInfo)
        ensures
            r == self.config,
    {
        self.config.clone()
    }

    /// A copy of the lend offer stored under the derived key, if any.
    pub fn query_lend_order(&self, token_id: &String, cw721_contract: &String) -> (r: Option<
        LendDetails,
    >)
        requires
            self.wf(),
        ensures
            match r {
                Some(d) => self@.lends.contains_key(asset_key(cw721_contract@, token_id@)) && d@
                    == self@.lends[asset_key(cw721_contract@, token_id@)],
                None => !self@.lends.contains_key(asset_key(cw721_contract@, token_id@)),
            },
    {
        match self.find_lend(token_id, cw721_contract) {
            Some(i) => {
                proof {
                    lemma_key_at_index(
                        self.lend_offers@,
                        asset_key(cw721_contract@, token_id@),
                        i as int,
                    );
                }
                Some(self.lend_offers[i].clone())
            },
            None => None,
        }
    }

    /// A copy of the rent order stored under the derived key, if any.
    pub fn query_rent_order(&self, token_id: &String, cw721_contract: &String) -> (r: Option<
        RentDetails,
    >)
        requires
            self.wf(),
        ensures
            match r {
                Some(d) => self@.rents.contains_key(asset_key(cw721_contract@, token_id@)) && d@
                    == self@.rents[asset_key(cw721_contract@, token_id@)],
                None => !self@.rents.contains_key(asset_key(cw721_contract@, token_id@)),
            },
    {
        match self.find_rent(token_id, cw721_contract) {
            Some(i) => {
                proof {
                    lemma_key_at_index(
                        self.rent_orders@,
                        asset_key(cw721_contract@, token_id@),
                        i as int,
                    );
                }
                Some(self.rent_orders[i].clone())
            },
            None => None,
        }
    }

    /// Answer one read-only question against the current store.
    pub fn handle_query(&self, msg: &QueryMsg) -> (r: QueryAnswer)
        requires
            self.wf(),
        ensures
            match *msg {
                QueryMsg::ContractInfo {  } => r matches QueryAnswer::Config(c) && c
                    == self.config,
                QueryMsg::LendOrder { ref token_id, ref cw721_contract } => r matches
                    QueryAnswer::LendOrder(o) && (match o {
                    Some(d) => self@.lends.contains_key(asset_key(cw721_contract@, token_id@))
                        && d@ == self@.lends[asset_key(cw721_contract@, token_id@)],
                    None => !self@.lends.contains_key(asset_key(cw721_contract@, token_id@)),
                }),
                QueryMsg::RentOrder { ref token_id, ref cw721_contract } => r matches
                    QueryAnswer::RentOrder(o) && (match o {
                    Some(d) => self@.rents.contains_key(asset_key(cw721_contract@, token_id@))
                        && d@ == self@.rents[asset_key(cw721_contract@, token_id@)],
                    None => !self@.rents.contains_key(asset_key(cw721_contract@, token_id@)),
                }),
            },
    {
        match msg {
            QueryMsg::ContractInfo {  } => QueryAnswer::Config(self.config()),
            QueryMsg::LendOrder { token_id, cw721_contract } => QueryAnswer::LendOrder(
                self.query_lend_order(token_id, cw721_contract),
            ),
            QueryMsg::RentOrder { token_id, cw721_contract } => QueryAnswer::RentOrder(
                self.query_rent_order(token_id, cw721_contract),
            ),
        }
    }
}

} // verus!
