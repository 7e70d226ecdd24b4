use nns::nft_owner::{split_nft_id, CallbackOutcome, PromiseOutcome};
use nns::{BidInfo, BidState, Borrower, Contract, Subject};

const SEC: u64 = 1_000_000_000;

fn offer(nft: &str, from: &str) -> BidInfo {
    BidInfo {
        src_nft_id: nft.to_string(),
        orgin_owner: "".to_string(),
        start_at: 100,
        lasts: 60,
        amount: 5_000_000_000_000_000_000_000_000,
        msg: "".to_string(),
        bid_from: from.to_string(),
        bid_state: None,
    }
}

fn token_json(owner: &str) -> Vec<u8> {
    format!(
        "{{\"token_id\":\"fake_nft_1\",\"owner_id\":\"{}\",\"metadata\":null,\"approved_account_ids\":null}}",
        owner
    )
    .into_bytes()
}

fn contract_with_one_bid() -> Contract {
    let mut c = Contract::new("owner".to_string());
    c.internal_add_bid(&offer("test_nft:fake_nft_1", "user1"), 0);
    c
}

#[test]
fn split_nft_id_at_first_colon() {
    assert_eq!(split_nft_id("test_nft:fake_nft_1"), ("test_nft".to_string(), "fake_nft_1".to_string()));
    assert_eq!(split_nft_id("a:b:c"), ("a".to_string(), "b:c".to_string()));
    assert_eq!(split_nft_id(":x"), ("".to_string(), "x".to_string()));
    assert_eq!(split_nft_id("x:"), ("x".to_string(), "".to_string()));
    assert_eq!(split_nft_id("ñft.near:tök"), ("ñft.near".to_string(), "tök".to_string()));
}

#[test]
fn take_offer_names_the_nft_contract_and_token() {
    let c = contract_with_one_bid();
    assert_eq!(c.take_offer(0), ("test_nft".to_string(), "fake_nft_1".to_string()));
}

#[test]
fn resolve_records_the_owners_answer() {
    let mut c = contract_with_one_bid();
    let outcome = c.resolve_nft_owner(&"user".to_string(), 0, true, &Some("user".to_string()), SEC);
    assert_eq!(outcome, CallbackOutcome::Taken);
    let info = c.get_bid(0).unwrap();
    assert_eq!(info.bid_state, Some(BidState::Approved));
    assert_eq!(info.orgin_owner, "user");
}

#[test]
fn resolve_refuses_a_non_owner() {
    let mut c = contract_with_one_bid();
    let outcome = c.resolve_nft_owner(&"thief".to_string(), 0, true, &Some("user".to_string()), SEC);
    assert_eq!(outcome, CallbackOutcome::NotOwner);
    let info = c.get_bid(0).unwrap();
    assert_eq!(info.bid_state, Some(BidState::InProgress));
    assert_eq!(info.orgin_owner, "");
}

#[test]
fn resolve_ignores_a_missing_owner() {
    let mut c = contract_with_one_bid();
    assert_eq!(c.resolve_nft_owner(&"user".to_string(), 0, true, &None, SEC), CallbackOutcome::Ignored);
    assert_eq!(c.get_bid(0).unwrap().bid_state, Some(BidState::InProgress));
}

#[test]
fn resolve_reports_a_missing_bid() {
    let mut c = contract_with_one_bid();
    assert_eq!(
        c.resolve_nft_owner(&"user".to_string(), 7, true, &Some("user".to_string()), SEC),
        CallbackOutcome::NoBid
    );
    assert_eq!(c.bids.len(), 1);
}

#[test]
fn resolve_reports_an_expiry_past_u64() {
    let mut c = Contract::new("owner".to_string());
    c.internal_add_bid(&offer("test_nft:fake_nft_1", "user1"), u64::MAX - 5);
    assert_eq!(
        c.resolve_nft_owner(&"user".to_string(), 0, true, &Some("user".to_string()), 0),
        CallbackOutcome::DeadlineOverflow
    );
    assert_eq!(c.get_bid(0).unwrap().bid_state, Some(BidState::InProgress));
}

#[test]
fn callback_reads_the_token_owner_from_json() {
    let mut c = contract_with_one_bid();
    let answer = c.on_nft_token_callback("user".to_string(), 0, false, &PromiseOutcome::Successful(token_json("user")), SEC);
    assert_eq!(answer, (CallbackOutcome::Taken, Some("user".to_string())));
    let info = c.get_bid(0).unwrap();
    assert_eq!(info.bid_state, Some(BidState::Rejected));
    assert_eq!(info.orgin_owner, "user");
}

#[test]
fn callback_refuses_when_json_names_another_owner() {
    let mut c = contract_with_one_bid();
    let answer = c.on_nft_token_callback("user1".to_string(), 0, true, &PromiseOutcome::Successful(token_json("user")), SEC);
    assert_eq!(answer, (CallbackOutcome::NotOwner, Some("user".to_string())));
    assert_eq!(c.get_bid(0).unwrap().bid_state, Some(BidState::InProgress));
}

#[test]
fn callback_ignores_failed_calls_and_bad_json() {
    let mut c = contract_with_one_bid();
    assert_eq!(c.on_nft_token_callback("user".to_string(), 0, true, &PromiseOutcome::Failed, SEC), (CallbackOutcome::Ignored, None));
    assert_eq!(
        c.on_nft_token_callback("user".to_string(), 0, true, &PromiseOutcome::Successful(b"not json".to_vec()), SEC),
        (CallbackOutcome::Ignored, None)
    );
    assert_eq!(
        c.on_nft_token_callback("user".to_string(), 0, true, &PromiseOutcome::Successful(b"null".to_vec()), SEC),
        (CallbackOutcome::Ignored, None)
    );
    assert_eq!(c.get_bid(0).unwrap().bid_state, Some(BidState::InProgress));
}

/// The lease flow of the contract's own scenario, up to the owner's approval:
/// a borrower offers a bid on `test_nft:fake_nft_1`, the bid is listed by
/// sender and by NFT, and the NFT's owner approves it.
#[test]
fn offer_list_and_approve_flow() {
    let mut c = Contract::new("owner".to_string());
    let id = c.internal_add_bid(&BidInfo {
        src_nft_id: "test_nft:fake_nft_1".to_string(),
        orgin_owner: "".to_string(),
        start_at: 100,
        lasts: 60,
        amount: 5_000_000_000_000_000_000_000_000,
        msg: "".to_string(),
        bid_from: "user1".to_string(),
        bid_state: None,
    }, 1_000 * SEC);
    assert_eq!(id, 0);
    c.internal_save_borrower(&"user1".to_string(), &Borrower { bids: vec![id] });
    c.internal_save_subject(&"test_nft:fake_nft_1".to_string(), &Subject { bids: vec![id] });

    let bids = c.list_bids_by_sender(&"user1".to_string());
    assert_eq!(bids.get(&0).unwrap().bid_from, "user1".to_string());
    let bids = c.list_bids_by_nft("test_nft:fake_nft_1".to_string());
    assert_eq!(bids.get(&0).unwrap().src_nft_id, "test_nft:fake_nft_1".to_string());

    assert_eq!(c.take_offer(0), ("test_nft".to_string(), "fake_nft_1".to_string()));
    let answer = c.on_nft_token_callback("user".to_string(), 0, true, &PromiseOutcome::Successful(token_json("user")), 1_100 * SEC);
    assert_eq!(answer.0, CallbackOutcome::Taken);

    let bid = c.get_bid(0).unwrap();
    assert_eq!(bid.bid_state, Some(BidState::Approved));
}

#[test]
fn callback_after_a_week_records_expiry() {
    let mut c = contract_with_one_bid();
    let answer = c.on_nft_token_callback("user".to_string(), 0, true, &PromiseOutcome::Successful(token_json("user")), 604800 * SEC + 1);
    assert_eq!(answer.0, CallbackOutcome::Taken);
    assert_eq!(c.get_bid(0).unwrap().bid_state, Some(BidState::Expired));
    assert_eq!(c.get_bid(0).unwrap().orgin_owner, "user");
}
