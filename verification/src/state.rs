//! The persisted state: a configuration record and two keyed tables,
//! held in memory and injected into every operation.
//!
//! Each table is a vector of records with pairwise distinct asset keys;
//! its abstraction is the map from each key to the model of the record
//! that carries it.  The lemmas here relate pushing, updating and
//! removing a vector element to inserting and removing a map entry, so
//! the operations in `handle` can state their effect over maps alone.

use vstd::prelude::*;

use crate::model::AssetKey;
use crate::model::BookModel;
use crate::msg::LendDetails;
use crate::msg::RentDetails;

verus! {

/// A record stored in one of the keyed tables.
pub trait KeyedRecord: View + Sized {
    /// The asset identity the record is stored under.
    spec fn record_key(&self) -> AssetKey;
}

impl KeyedRecord for LendDetails {
    open spec fn record_key(&self) -> AssetKey {
        self.key()
    }
}

impl KeyedRecord for RentDetails {
    open spec fn record_key(&self) -> AssetKey {
        self.key()
    }
}

/// No two records of the table carry the same asset key.
pub open spec fn keys_unique<T: KeyedRecord>(s: Seq<T>) -> bool {
    forall|i: int, j: int|
        0 <= i < j < s.len() ==> s[i].record_key() != s[j].record_key()
}

/// Some record of the table carries the key `k`.
pub open spec fn has_key<T: KeyedRecord>(s: Seq<T>, k: AssetKey) -> bool {
    exists|i: int| 0 <= i < s.len() && s[i].record_key() == k
}

/// The position of the record carrying the key `k`, meaningful only
/// when `has_key(s, k)` holds and the keys are unique.
pub open spec fn index_of_key<T: KeyedRecord>(s: Seq<T>, k: AssetKey) -> int {
    choose|i: int| 0 <= i < s.len() && s[i].record_key() == k
}

/// The table read as a map from asset keys to record models.
pub open spec fn table_map<T: KeyedRecord>(s: Seq<T>) -> Map<AssetKey, T::V> {
    Map::new(|k: AssetKey| has_key(s, k), |k: AssetKey| s[index_of_key(s, k)]@)
}

/// In a table with unique keys, the record at position `i` is the one
/// `index_of_key` picks for its key, and the map holds its model.
pub proof fn lemma_key_at_index<T: KeyedRecord>(s: Seq<T>, k: AssetKey, i: int)
    requires
        keys_unique(s),
        0 <= i < s.len(),
        s[i].record_key() == k,
    ensures
        has_key(s, k),
        index_of_key(s, k) == i,
        table_map(s).contains_key(k),
        table_map(s)[k] == s[i]@,
{
    assert(has_key(s, k));
    let j = index_of_key(s, k);
    assert(0 <= j < s.len() && s[j].record_key() == k);
    if i < j {
        assert(s[i].record_key() != s[j].record_key());
    }
    if j < i {
        assert(s[j].record_key() != s[i].record_key());
    }
}

/// Appending a record with a fresh key inserts its model into the map.
pub proof fn lemma_table_push<T: KeyedRecord>(s: Seq<T>, d: T)
    requires
        keys_unique(s),
        !has_key(s, d.record_key()),
    ensures
        keys_unique(s.push(d)),
        table_map(s.push(d)) == table_map(s).insert(d.record_key(), d@),
{
    let t = s.push(d);
    let k0 = d.record_key();
    assert forall|i: int, j: int|
        0 <= i < j < t.len() implies t[i].record_key() != t[j].record_key() by {
        if j == s.len() {
            assert(t[i] == s[i]);
            if s[i].record_key() == k0 {
                assert(has_key(s, k0));
            }
        } else {
            assert(t[i] == s[i]);
            assert(t[j] == s[j]);
        }
    }
    assert(keys_unique(t));

    let m1 = table_map(t);
    let m2 = table_map(s).insert(k0, d@);
    assert forall|k: AssetKey| #[trigger] m1.contains_key(k) implies m2.contains_key(k)
        && m1[k] == m2[k] by {
        let i = choose|i: int| 0 <= i < t.len() && t[i].record_key() == k;
        lemma_key_at_index(t, k, i);
        if i < s.len() {
            assert(t[i] == s[i]);
            lemma_key_at_index(s, k, i);
            if k == k0 {
                assert(has_key(s, k0));
            }
            assert(m2[k] == s[i]@);
        } else {
            assert(t[i] == d);
            assert(k == k0);
        }
    }
    assert forall|k: AssetKey| #[trigger] m2.contains_key(k) implies m1.contains_key(k) by {
        if k == k0 {
            assert(t[s.len() as int] == d);
            lemma_key_at_index(t, k0, s.len() as int);
        } else {
            assert(has_key(s, k));
            let i = choose|i: int| 0 <= i < s.len() && s[i].record_key() == k;
            assert(t[i] == s[i]);
            lemma_key_at_index(t, k, i);
        }
    }
    assert(m1 =~= m2);
}

/// Overwriting the record at position `i` with one carrying the same
/// key replaces that key's model in the map.
pub proof fn lemma_table_update<T: KeyedRecord>(s: Seq<T>, i: int, d: T)
    requires
        keys_unique(s),
        0 <= i < s.len(),
        s[i].record_key() == d.record_key(),
    ensures
        keys_unique(s.update(i, d)),
        table_map(s.update(i, d)) == table_map(s).insert(d.record_key(), d@),
{
    let t = s.update(i, d);
    let k0 = d.record_key();
    assert forall|p: int, q: int|
        0 <= p < q < t.len() implies t[p].record_key() != t[q].record_key() by {
        assert(t[p] == if p == i { d } else { s[p] });
        assert(t[q] == if q == i { d } else { s[q] });
        assert(s[p].record_key() != s[q].record_key());
    }
    assert(keys_unique(t));

    let m1 = table_map(t);
    let m2 = table_map(s).insert(k0, d@);
    assert forall|k: AssetKey| #[trigger] m1.contains_key(k) implies m2.contains_key(k)
        && m1[k] == m2[k] by {
        let p = choose|p: int| 0 <= p < t.len() && t[p].record_key() == k;
        lemma_key_at_index(t, k, p);
        if p == i {
            assert(t[p] == d);
            assert(k == k0);
        } else {
            assert(t[p] == s[p]);
            lemma_key_at_index(s, k, p);
            if k == k0 {
                lemma_key_at_index(s, k0, i);
            }
            assert(m2[k] == s[p]@);
        }
    }
    assert forall|k: AssetKey| #[trigger] m2.contains_key(k) implies m1.contains_key(k) by {
        if k == k0 {
            assert(t[i] == d);
            lemma_key_at_index(t, k0, i);
        } else {
            assert(has_key(s, k));
            let p = choose|p: int| 0 <= p < s.len() && s[p].record_key() == k;
            if p == i {
                lemma_key_at_index(s, k0, i);
            }
            assert(t[p] == s[p]);
            lemma_key_at_index(t, k, p);
        }
    }
    assert(m1 =~= m2);
}

/// Removing the record at position `i` removes its key from the map.
pub proof fn lemma_table_remove<T: KeyedRecord>(s: Seq<T>, i: int)
    requires
        keys_unique(s),
        0 <= i < s.len(),
    ensures
        keys_unique(s.remove(i)),
        table_map(s.remove(i)) == table_map(s).remove(s[i].record_key()),
{
    let t = s.remove(i);
    let k0 = s[i].record_key();
    assert forall|p: int, q: int|
        0 <= p < q < t.len() implies t[p].record_key() != t[q].record_key() by {
        let sp: int = if p < i { p } else { p + 1 };
        let sq: int = if q < i { q } else { q + 1 };
        assert(t[p] == s[sp]);
        assert(t[q] == s[sq]);
        assert(s[sp].record_key() != s[sq].record_key());
    }
    assert(keys_unique(t));

    let m1 = table_map(t);
    let m2 = table_map(s).remove(k0);
    assert forall|k: AssetKey| #[trigger] m1.contains_key(k) implies m2.contains_key(k)
        && m1[k] == m2[k] by {
        let p = choose|p: int| 0 <= p < t.len() && t[p].record_key() == k;
        lemma_key_at_index(t, k, p);
        let sp: int = if p < i { p } else { p + 1 };
        assert(t[p] == s[sp]);
        lemma_key_at_index(s, k, sp);
        assert(sp != i);
        assert(k != k0) by {
            if k == k0 {
                lemma_key_at_index(s, k0, i);
            }
        }
        assert(m2[k] == s[sp]@);
    }
    assert forall|k: AssetKey| #[trigger] m2.contains_key(k) implies m1.contains_key(k) by {
        assert(has_key(s, k));
        let p = choose|p: int| 0 <= p < s.len() && s[p].record_key() == k;
        if p == i {
            lemma_key_at_index(s, k0, i);
        }
        assert(p != i);
        let tp: int = if p < i { p } else { p - 1 };
        assert(t[tp] == s[p]);
        lemma_key_at_index(t, k, tp);
    }
    assert(m1 =~= m2);
}

/// The singleton configuration record of the contract.
#[derive(Debug)]
pub struct ContractInfo {
    /// Human-readable contract name.
    pub name: String,
    /// Version string recorded at instantiation.
    pub version: String,
    /// The administrator's principal.
    pub admin: String,
    /// The custody (cw721) contract this order book serves.
    pub cw721_contract: String,
}

impl Clone for ContractInfo {
    fn clone(&self) -> (res: Self)
        ensures
            res == *self,
    {
        ContractInfo {
            name: self.name.clone(),
            version: self.version.clone(),
            admin: self.admin.clone(),
            cw721_contract: self.cw721_contract.clone(),
        }
    }
}

/// The whole persisted state: the configuration record and the two
/// order tables, keyed by asset identity.
#[derive(Debug)]
pub struct OrderBook {
    /// The singleton configuration record.
    pub config: ContractInfo,
    /// Lend offers, at most one per asset identity.
    pub lend_offers: Vec<LendDetails>,
    /// Rent orders, at most one per asset identity.
    pub rent_orders: Vec<RentDetails>,
}

impl View for OrderBook {
    type V = BookModel;

    open spec fn view(&self) -> BookModel {
        BookModel {
            lends: table_map(self.lend_offers@),
            rents: table_map(self.rent_orders@),
        }
    }
}

impl OrderBook {
    /// Well-formedness: each table keys its records uniquely, and every
    /// listed offer's duration respects the policy bounds.
    pub open spec fn wf(&self) -> bool {
        &&& keys_unique(self.lend_offers@)
        &&& keys_unique(self.rent_orders@)
        &&& forall|i: int|
            0 <= i < self.lend_offers@.len() ==> crate::MIN_DURATION
                <= (#[trigger] self.lend_offers@[i]).lend_time <= crate::MAX_DURATION
    }

    /// Position of the lend offer stored under the derived key, if any.
    pub fn find_lend(&self, token_id: &String, cw721_contract: &String) -> (r: Option<usize>)
        requires
            keys_unique(self.lend_offers@),
        ensures
            match r {
                Some(i) => {
                    &&& i < self.lend_offers@.len()
                    &&& self.lend_offers@[i as int].record_key() == crate::model::asset_key(
                        cw721_contract@,
                        token_id@,
                    )
                    &&& has_key(
                        self.lend_offers@,
                        crate::model::asset_key(cw721_contract@, token_id@),
                    )
                },
                None => !has_key(
                    self.lend_offers@,
                    crate::model::asset_key(cw721_contract@, token_id@),
                ),
            },
    {
        let ghost k = crate::model::asset_key(cw721_contract@, token_id@);
        let mut i: usize = 0;
        while i < self.lend_offers.len()
            invariant
                i <= self.lend_offers@.len(),
                k == crate::model::asset_key(cw721_contract@, token_id@),
                forall|j: int|
                    0 <= j < i ==> (#[trigger] self.lend_offers@[j]).record_key() != k,
            decreases self.lend_offers@.len() - i,
        {
            let d = &self.lend_offers[i];
            if d.nft_contract == *cw721_contract && d.nft_id == *token_id {
                return Some(i);
            }
            proof {
                // Had this record carried the key, both identifier views
                // would match, against the failed comparison above.
                let dd = self.lend_offers@[i as int];
                assert(dd == *d);
                if dd.record_key() == k {
                    assert(dd.record_key().0 == k.0 && dd.record_key().1 == k.1);
                }
            }
            i += 1;
        }
        proof {
            if has_key(self.lend_offers@, k) {
                let w = choose|w: int|
                    0 <= w < self.lend_offers@.len() && self.lend_offers@[w].record_key() == k;
                assert(self.lend_offers@[w].record_key() != k);
            }
        }
        None
    }

    /// Position of the rent order stored under the derived key, if any.
    pub fn find_rent(&self, token_id: &String, cw721_contract: &String) -> (r: Option<usize>)
        requires
            keys_unique(self.rent_orders@),
        ensures
            match r {
                Some(i) => {
                    &&& i < self.rent_orders@.len()
                    &&& self.rent_orders@[i as int].record_key() == crate::model::asset_key(
                        cw721_contract@,
                        token_id@,
                    )
                    &&& has_key(
                        self.rent_orders@,
                        crate::model::asset_key(cw721_contract@, token_id@),
                    )
                },
                None => !has_key(
                    self.rent_orders@,
                    crate::model::asset_key(cw721_contract@, token_id@),
                ),
            },
    {
        let ghost k = crate::model::asset_key(cw721_contract@, token_id@);
        let mut i: usize = 0;
        while i < self.rent_orders.len()
            invariant
                i <= self.rent_orders@.len(),
                k == crate::model::asset_key(cw721_contract@, token_id@),
                forall|j: int|
                    0 <= j < i ==> (#[trigger] self.rent_orders@[j]).record_key() != k,
            decreases self.rent_orders@.len() - i,
        {
            let d = &self.rent_orders[i];
            if d.nft_contract == *cw721_contract && d.nft_id == *token_id {
                return Some(i);
            }
            proof {
                // Had this record carried the key, both identifier views
                // would match, against the failed comparison above.
                let dd = self.rent_orders@[i as int];
                assert(dd == *d);
                if dd.record_key() == k {
                    assert(dd.record_key().0 == k.0 && dd.record_key().1 == k.1);
                }
            }
            i += 1;
        }
        proof {
            if has_key(self.rent_orders@, k) {
                let w = choose|w: int|
                    0 <= w < self.rent_orders@.len() && self.rent_orders@[w].record_key() == k;
                assert(self.rent_orders@[w].record_key() != k);
            }
        }
        None
    }

    /// An empty order book under the given configuration.
    pub fn new(config: ContractInfo) -> (book: OrderBook)
        ensures
            book.wf(),
            book@.lends == Map::<AssetKey, crate::model::LendModel>::empty(),
            book@.rents == Map::<AssetKey, crate::model::RentModel>::empty(),
            book.config == config,
    {
        let book = OrderBook { config, lend_offers: Vec::new(), rent_orders: Vec::new() };
        proof {
            assert(book@.lends =~= Map::<AssetKey, crate::model::LendModel>::empty());
            assert(book@.rents =~= Map::<AssetKey, crate::model::RentModel>::empty());
        }
        book
    }
}

} // verus!
