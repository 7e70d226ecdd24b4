use nns::bid::sec_to_nano;
use nns::{Bid, BidInfo, BidState};

const SEC: u64 = 1_000_000_000;

fn offer() -> BidInfo {
    BidInfo {
        src_nft_id: "test_nft:fake_nft_1".to_string(),
        orgin_owner: "someone".to_string(),
        start_at: 100,
        lasts: 60,
        amount: 5_000_000_000_000_000_000_000_000,
        msg: "hello".to_string(),
        bid_from: "user1".to_string(),
        bid_state: None,
    }
}

fn bid_in(state: BidState, create_at: u64) -> Bid {
    let mut bid = Bid::from_info(&offer(), create_at);
    bid.bid_state = state;
    bid
}

#[test]
fn sec_to_nano_scales_by_a_billion() {
    assert_eq!(sec_to_nano(0), 0);
    assert_eq!(sec_to_nano(1), 1_000_000_000);
    assert_eq!(sec_to_nano(604800), 604_800_000_000_000);
    assert_eq!(sec_to_nano(u32::MAX), 4_294_967_295_000_000_000);
}

#[test]
fn from_info_starts_in_progress_without_owner() {
    let bid = Bid::from_info(&offer(), 77);
    assert_eq!(bid.src_nft_id, "test_nft:fake_nft_1");
    assert_eq!(bid.origin_owner, "");
    assert_eq!(bid.start_at, 100);
    assert_eq!(bid.lasts, 60);
    assert_eq!(bid.amount, 5_000_000_000_000_000_000_000_000);
    assert_eq!(bid.msg, "hello");
    assert_eq!(bid.bid_from, "user1");
    assert_eq!(bid.bid_state, BidState::InProgress);
    assert_eq!(bid.create_at, 77);
}

#[test]
fn cur_state_expires_only_after_the_deadline() {
    let bid = bid_in(BidState::InProgress, 1000 * SEC);
    assert_eq!(bid.cur_state(60, 1000 * SEC), BidState::InProgress);
    assert_eq!(bid.cur_state(60, 1060 * SEC), BidState::InProgress);
    assert_eq!(bid.cur_state(60, 1060 * SEC + 1), BidState::Expired);
    assert_eq!(bid.cur_state(0, 1000 * SEC + 1), BidState::Expired);
}

#[test]
fn cur_state_keeps_settled_states() {
    for state in [BidState::Approved, BidState::Rejected, BidState::Expired, BidState::Consumed] {
        let bid = bid_in(state, 0);
        assert_eq!(bid.cur_state(1, u64::MAX), state);
    }
}

#[test]
fn accept_bid_approves_or_rejects_in_time() {
    let mut bid = bid_in(BidState::InProgress, 0);
    bid.accept_bid(true, 60, 60 * SEC);
    assert_eq!(bid.bid_state, BidState::Approved);
    let mut bid = bid_in(BidState::InProgress, 0);
    bid.accept_bid(false, 60, 30 * SEC);
    assert_eq!(bid.bid_state, BidState::Rejected);
}

#[test]
fn accept_bid_after_deadline_expires() {
    let mut bid = bid_in(BidState::InProgress, 0);
    bid.accept_bid(true, 60, 60 * SEC + 1);
    assert_eq!(bid.bid_state, BidState::Expired);
    assert_eq!(bid.origin_owner, "");
    assert_eq!(bid.bid_from, "user1");
}

#[test]
fn accept_bid_leaves_settled_bids() {
    for state in [BidState::Approved, BidState::Rejected, BidState::Expired, BidState::Consumed] {
        let mut bid = bid_in(state, 0);
        bid.accept_bid(true, 60, 0);
        assert_eq!(bid.bid_state, state);
        bid.accept_bid(false, 60, 0);
        assert_eq!(bid.bid_state, state);
    }
}

#[test]
fn second_answer_does_not_change_the_first() {
    let mut bid = bid_in(BidState::InProgress, 0);
    bid.accept_bid(false, 60, 10 * SEC);
    assert_eq!(bid.bid_state, BidState::Rejected);
    bid.accept_bid(true, 60, 11 * SEC);
    assert_eq!(bid.bid_state, BidState::Rejected);
}

#[test]
fn expired_stays_expired_later() {
    let bid = bid_in(BidState::InProgress, 0);
    assert_eq!(bid.cur_state(1, 2 * SEC), BidState::Expired);
    assert_eq!(bid.cur_state(1, 200 * SEC), BidState::Expired);
    assert_eq!(bid.cur_state(1, SEC), BidState::InProgress);
}

#[test]
fn duplicate_copies_every_field() {
    let bid = bid_in(BidState::Approved, 42);
    let copy = bid.duplicate();
    assert_eq!(copy.src_nft_id, bid.src_nft_id);
    assert_eq!(copy.origin_owner, bid.origin_owner);
    assert_eq!(copy.msg, bid.msg);
    assert_eq!(copy.bid_from, bid.bid_from);
    assert_eq!(copy.bid_state, BidState::Approved);
    assert_eq!(copy.create_at, 42);
}

#[test]
fn bid_info_from_bid_shows_the_state() {
    let mut bid = bid_in(BidState::Approved, 42);
    bid.origin_owner = "user".to_string();
    let info = BidInfo::from(&bid);
    assert_eq!(info.src_nft_id, "test_nft:fake_nft_1");
    assert_eq!(info.orgin_owner, "user");
    assert_eq!(info.start_at, 100);
    assert_eq!(info.lasts, 60);
    assert_eq!(info.msg, "hello");
    assert_eq!(info.bid_from, "user1");
    assert_eq!(info.bid_state, Some(BidState::Approved));
}

#[test]
fn from_info_ignores_offered_owner_and_state() {
    let honest = offer();
    let mut forged = offer();
    forged.orgin_owner = "mallory".to_string();
    forged.bid_state = Some(BidState::Approved);
    let a = Bid::from_info(&honest, 9);
    let b = Bid::from_info(&forged, 9);
    assert_eq!(a.bid_state, BidState::InProgress);
    assert_eq!(b.bid_state, BidState::InProgress);
    assert_eq!(a.origin_owner, "");
    assert_eq!(b.origin_owner, "");
    assert_eq!(a.src_nft_id, b.src_nft_id);
    assert_eq!(a.bid_from, b.bid_from);
    assert_eq!(a.create_at, b.create_at);
}
