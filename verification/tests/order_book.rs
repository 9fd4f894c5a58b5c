use nft_renting::error::ContractError;
use nft_renting::state::{ContractInfo, OrderBook};
use nft_renting::msg::QueryMsg;
use nft_renting::query::QueryAnswer;
use nft_renting::{MAX_DURATION, MIN_DURATION};

fn book() -> OrderBook {
    OrderBook::new(ContractInfo {
        name: String::from("nft-renting"),
        version: String::from("0.1.0"),
        admin: String::from("admin"),
        cw721_contract: String::from("col1"),
    })
}

fn listed_book() -> OrderBook {
    let mut b = book();
    b.create_lend_order(
        String::from("tok1"),
        String::from("col1"),
        String::from("lender"),
        50,
        100,
    )
    .unwrap();
    b
}

#[test]
fn create_accepts_every_duration_within_bounds() {
    for d in [MIN_DURATION, MIN_DURATION + 1, 86_400, MAX_DURATION - 1, MAX_DURATION] {
        let mut b = book();
        let r = b.create_lend_order(
            String::from("tok1"),
            String::from("col1"),
            String::from("lender"),
            50,
            d,
        );
        assert_eq!(r, Ok(()));
    }
}

#[test]
fn create_rejects_duration_below_minimum() {
    let mut b = book();
    let r = b.create_lend_order(
        String::from("tok1"),
        String::from("col1"),
        String::from("lender"),
        50,
        MIN_DURATION - 1,
    );
    assert_eq!(r, Err(ContractError::DurationTooShort));
    assert!(b.query_lend_order(&String::from("tok1"), &String::from("col1")).is_none());
}

#[test]
fn create_rejects_duration_above_maximum() {
    let mut b = book();
    let r = b.create_lend_order(
        String::from("tok1"),
        String::from("col1"),
        String::from("lender"),
        50,
        MAX_DURATION + 1,
    );
    assert_eq!(r, Err(ContractError::DurationTooLong));
}

#[test]
fn create_twice_fails_already_listed() {
    let mut b = listed_book();
    let r = b.create_lend_order(
        String::from("tok1"),
        String::from("col1"),
        String::from("other"),
        70,
        200,
    );
    assert_eq!(r, Err(ContractError::AlreadyListed));
    // The stored offer is untouched.
    let o = b.query_lend_order(&String::from("tok1"), &String::from("col1")).unwrap();
    assert_eq!(o.lender, "lender");
    assert_eq!(o.lend_amount, 50);
    assert_eq!(o.lend_time, 100);
}

#[test]
fn structured_keys_do_not_alias() {
    // A delimiter-free concatenation would confuse ("ab", "c") with ("a", "bc").
    let mut b = book();
    b.create_lend_order(String::from("c"), String::from("ab"), String::from("l1"), 1, 100)
        .unwrap();
    let r = b.create_lend_order(
        String::from("bc"),
        String::from("a"),
        String::from("l2"),
        2,
        200,
    );
    assert_eq!(r, Ok(()));
    let first = b.query_lend_order(&String::from("c"), &String::from("ab")).unwrap();
    let second = b.query_lend_order(&String::from("bc"), &String::from("a")).unwrap();
    assert_eq!(first.lender, "l1");
    assert_eq!(second.lender, "l2");
}

#[test]
fn rent_without_offer_fails_not_found() {
    let mut b = book();
    let r = b.rent(
        String::from("tok1"),
        String::from("col1"),
        String::from("renter"),
        1000,
    );
    assert!(matches!(r, Err(ContractError::NotFound)));
}

#[test]
fn rent_by_lender_fails_self_rent() {
    let mut b = listed_book();
    let r = b.rent(
        String::from("tok1"),
        String::from("col1"),
        String::from("lender"),
        1000,
    );
    assert!(matches!(r, Err(ContractError::SelfRentForbidden)));
    assert!(b.query_rent_order(&String::from("tok1"), &String::from("col1")).is_none());
}

#[test]
fn rent_stores_exact_expiration_and_emits_instructions() {
    let mut b = listed_book();
    let (pay, grant) = b
        .rent(
            String::from("tok1"),
            String::from("col1"),
            String::from("renter"),
            1000,
        )
        .unwrap();
    assert_eq!(pay.recipient, "lender");
    assert_eq!(pay.amount, 50);
    assert_eq!(grant.user, "renter");
    assert_eq!(grant.until, 1100);
    assert_eq!(grant.nft_id, "tok1");
    assert_eq!(grant.nft_contract, "col1");
    let stored = b.query_rent_order(&String::from("tok1"), &String::from("col1")).unwrap();
    assert_eq!(stored.renter, "renter");
    assert_eq!(stored.rent_amount, 50);
    assert_eq!(stored.expiration, 1100);
}

#[test]
fn rent_overwrites_prior_rental_unconditionally() {
    let mut b = listed_book();
    b.rent(String::from("tok1"), String::from("col1"), String::from("r1"), 1000)
        .unwrap();
    // A second rental mid-term supersedes the first.
    let r = b.rent(String::from("tok1"), String::from("col1"), String::from("r2"), 1050);
    assert!(r.is_ok());
    let stored = b.query_rent_order(&String::from("tok1"), &String::from("col1")).unwrap();
    assert_eq!(stored.renter, "r2");
    assert_eq!(stored.expiration, 1150);
}

#[test]
fn delist_by_non_lender_fails_unauthorized() {
    // Without any rental.
    let mut b = listed_book();
    let r = b.delist(
        String::from("tok1"),
        String::from("col1"),
        String::from("mallory"),
        1000,
    );
    assert!(matches!(r, Err(ContractError::Unauthorized)));
    // And with an active rental: still Unauthorized, not StillRented.
    b.rent(String::from("tok1"), String::from("col1"), String::from("renter"), 1000)
        .unwrap();
    let r = b.delist(
        String::from("tok1"),
        String::from("col1"),
        String::from("mallory"),
        1050,
    );
    assert!(matches!(r, Err(ContractError::Unauthorized)));
}

#[test]
fn delist_without_offer_fails_not_found() {
    let mut b = book();
    let r = b.delist(
        String::from("tok1"),
        String::from("col1"),
        String::from("lender"),
        1000,
    );
    assert!(matches!(r, Err(ContractError::NotFound)));
}

#[test]
fn delist_by_lender_succeeds_without_rental() {
    let mut b = listed_book();
    let ret = b
        .delist(
            String::from("tok1"),
            String::from("col1"),
            String::from("lender"),
            1000,
        )
        .unwrap();
    assert_eq!(ret.recipient, "lender");
    assert_eq!(ret.nft_id, "tok1");
    assert_eq!(ret.nft_contract, "col1");
    assert!(b.query_lend_order(&String::from("tok1"), &String::from("col1")).is_none());
}

#[test]
fn delist_blocked_until_rental_expires() {
    let mut b = listed_book();
    b.rent(String::from("tok1"), String::from("col1"), String::from("renter"), 1000)
        .unwrap();
    // Strictly before expiration: refused.
    let r = b.delist(
        String::from("tok1"),
        String::from("col1"),
        String::from("lender"),
        1050,
    );
    assert!(matches!(r, Err(ContractError::StillRented)));
    let r = b.delist(
        String::from("tok1"),
        String::from("col1"),
        String::from("lender"),
        1099,
    );
    assert!(matches!(r, Err(ContractError::StillRented)));
    // At expiration: allowed.
    let r = b.delist(
        String::from("tok1"),
        String::from("col1"),
        String::from("lender"),
        1100,
    );
    assert!(r.is_ok());
    assert!(b.query_lend_order(&String::from("tok1"), &String::from("col1")).is_none());
    // The stale rental record is left behind.
    assert!(b.query_rent_order(&String::from("tok1"), &String::from("col1")).is_some());
}

#[test]
fn delist_then_create_lists_again() {
    let mut b = listed_book();
    b.delist(
        String::from("tok1"),
        String::from("col1"),
        String::from("lender"),
        1000,
    )
    .unwrap();
    let r = b.create_lend_order(
        String::from("tok1"),
        String::from("col1"),
        String::from("lender2"),
        80,
        300,
    );
    assert_eq!(r, Ok(()));
    let o = b.query_lend_order(&String::from("tok1"), &String::from("col1")).unwrap();
    assert_eq!(o.lender, "lender2");
}

#[test]
fn edit_by_non_lender_fails_unauthorized() {
    let mut b = listed_book();
    let r = b.edit_lend_order(
        String::from("tok1"),
        String::from("col1"),
        String::from("mallory"),
        99,
        500,
    );
    assert_eq!(r, Err(ContractError::Unauthorized));
    let o = b.query_lend_order(&String::from("tok1"), &String::from("col1")).unwrap();
    assert_eq!(o.lend_amount, 50);
    assert_eq!(o.lend_time, 100);
}

#[test]
fn edit_without_offer_fails_not_found() {
    let mut b = book();
    let r = b.edit_lend_order(
        String::from("tok1"),
        String::from("col1"),
        String::from("lender"),
        99,
        500,
    );
    assert_eq!(r, Err(ContractError::NotFound));
}

#[test]
fn edit_by_lender_overwrites_terms_preserving_lender() {
    let mut b = listed_book();
    let r = b.edit_lend_order(
        String::from("tok1"),
        String::from("col1"),
        String::from("lender"),
        75,
        7200,
    );
    assert_eq!(r, Ok(()));
    let o = b.query_lend_order(&String::from("tok1"), &String::from("col1")).unwrap();
    assert_eq!(o.lender, "lender");
    assert_eq!(o.lend_amount, 75);
    assert_eq!(o.lend_time, 7200);
    assert_eq!(o.nft_id, "tok1");
    assert_eq!(o.nft_contract, "col1");
}

#[test]
fn edit_revalidates_duration_bounds() {
    let mut b = listed_book();
    let r = b.edit_lend_order(
        String::from("tok1"),
        String::from("col1"),
        String::from("lender"),
        75,
        MIN_DURATION - 1,
    );
    assert_eq!(r, Err(ContractError::DurationTooShort));
    let r = b.edit_lend_order(
        String::from("tok1"),
        String::from("col1"),
        String::from("lender"),
        75,
        MAX_DURATION + 1,
    );
    assert_eq!(r, Err(ContractError::DurationTooLong));
    let o = b.query_lend_order(&String::from("tok1"), &String::from("col1")).unwrap();
    assert_eq!(o.lend_amount, 50);
    assert_eq!(o.lend_time, 100);
}

#[test]
fn queries_answer_each_question() {
    let mut b = listed_book();
    b.rent(String::from("tok1"), String::from("col1"), String::from("renter"), 1000)
        .unwrap();

    let cfg = b.config();
    assert_eq!(cfg.name, "nft-renting");
    assert_eq!(cfg.admin, "admin");

    match b.handle_query(&QueryMsg::ContractInfo {}) {
        QueryAnswer::Config(c) => assert_eq!(c.cw721_contract, "col1"),
        other => panic!("unexpected answer {:?}", other),
    }
    match b.handle_query(&QueryMsg::LendOrder {
        token_id: String::from("tok1"),
        cw721_contract: String::from("col1"),
    }) {
        QueryAnswer::LendOrder(Some(o)) => assert_eq!(o.lend_amount, 50),
        other => panic!("unexpected answer {:?}", other),
    }
    match b.handle_query(&QueryMsg::RentOrder {
        token_id: String::from("tok1"),
        cw721_contract: String::from("col1"),
    }) {
        QueryAnswer::RentOrder(Some(o)) => assert_eq!(o.expiration, 1100),
        other => panic!("unexpected answer {:?}", other),
    }
    match b.handle_query(&QueryMsg::LendOrder {
        token_id: String::from("missing"),
        cw721_contract: String::from("col1"),
    }) {
        QueryAnswer::LendOrder(None) => {}
        other => panic!("unexpected answer {:?}", other),
    }
}

#[test]
fn full_scenario_from_deposit_to_return() {
    let mut b = book();
    b.create_lend_order(
        String::from("tok1"),
        String::from("col1"),
        String::from("L"),
        50,
        100,
    )
    .unwrap();
    let (pay, grant) = b
        .rent(String::from("tok1"), String::from("col1"), String::from("R"), 1000)
        .unwrap();
    assert_eq!(pay.recipient, "L");
    assert_eq!(pay.amount, 50);
    assert_eq!(grant.user, "R");
    assert_eq!(grant.until, 1100);
    let r = b.delist(String::from("tok1"), String::from("col1"), String::from("L"), 1050);
    assert!(matches!(r, Err(ContractError::StillRented)));
    let ret = b
        .delist(String::from("tok1"), String::from("col1"), String::from("L"), 1101)
        .unwrap();
    assert_eq!(ret.recipient, "L");
    assert!(b.query_lend_order(&String::from("tok1"), &String::from("col1")).is_none());
}
