//! The life of a lease bid: created in progress, then approved, rejected or
//! expired, and finally consumed when the lease is executed.

use vstd::prelude::*;

use crate::view::{BidInfo, BidInfoView};

verus! {

/// Where a bid stands in its life.
#[derive(Clone, Copy, Debug, PartialEq, Eq, Structural)]
pub enum BidState {
    InProgress,
    /// The NFT owner accepted the bid.
    Approved,
    /// The NFT owner explicitly rejected the bid.
    Rejected,
    Expired,
    /// The borrower executed the lease.
    Consumed,
}

/// A lease bid on an NFT.
pub struct Bid {
    /// Global NFT id, `contract_id:token_id`.
    pub src_nft_id: String,
    /// The NFT owner, verified on chain when the owner answers.
    pub origin_owner: String,
    /// Start timestamp of the lease.
    pub start_at: u32,
    /// Duration of the lease in seconds.
    pub lasts: u32,
    /// Total fee of the lease.
    pub amount: u128,
    /// Extra negotiation info.
    pub msg: String,
    /// The bid creator, that is the borrower.
    pub bid_from: String,
    pub bid_state: BidState,
    /// Creation time in nanoseconds, used to tell expiration.
    pub create_at: u64,
}

/// The mathematical value of a [`Bid`]: its strings as character sequences.
pub struct BidView {
    pub src_nft_id: Seq<char>,
    pub origin_owner: Seq<char>,
    pub start_at: u32,
    pub lasts: u32,
    pub amount: u128,
    pub msg: Seq<char>,
    pub bid_from: Seq<char>,
    pub bid_state: BidState,
    pub create_at: u64,
}

impl View for Bid {
    type V = BidView;

    open spec fn view(&self) -> BidView {
        BidView {
            src_nft_id: self.src_nft_id@,
            origin_owner: self.origin_owner@,
            start_at: self.start_at,
            lasts: self.lasts,
            amount: self.amount,
            msg: self.msg@,
            bid_from: self.bid_from@,
            bid_state: self.bid_state,
            create_at: self.create_at,
        }
    }
}

/// Nanoseconds in `sec` seconds.
pub open spec fn nanos(sec: u32) -> int {
    sec * 1_000_000_000
}

/// The last instant, in nanoseconds, at which a bid created at `create_at` is
/// still in time when bids live `expire_sec` seconds.
pub open spec fn expiry(create_at: u64, expire_sec: u32) -> int {
    create_at + nanos(expire_sec)
}

/// The expiry instant can be computed in a `u64`.
pub open spec fn expiry_fits(create_at: u64, expire_sec: u32) -> bool {
    expiry(create_at, expire_sec) <= u64::MAX
}

/// The state of a bid seen at time `now`: a bid in progress whose expiry has
/// passed is expired; any other state stays as it is.
pub open spec fn state_at(state: BidState, create_at: u64, expire_sec: u32, now: u64) -> BidState {
    if state == BidState::InProgress && expiry(create_at, expire_sec) < now {
        BidState::Expired
    } else {
        state
    }
}

/// The state after the owner's answer: a bid still in progress becomes approved
/// or rejected according to `opinion`; any other state stays as it is.
pub open spec fn answered(current: BidState, opinion: bool) -> BidState {
    if current == BidState::InProgress {
        if opinion {
            BidState::Approved
        } else {
            BidState::Rejected
        }
    } else {
        current
    }
}

impl BidView {
    /// Reading the state needs the expiry instant only while the bid is in progress.
    pub open spec fn can_evaluate(self, expire_sec: u32) -> bool {
        self.bid_state == BidState::InProgress ==> expiry_fits(self.create_at, expire_sec)
    }

    pub open spec fn state_at(self, expire_sec: u32, now: u64) -> BidState {
        state_at(self.bid_state, self.create_at, expire_sec, now)
    }

    /// The bid after the owner answered `opinion` at time `now`.
    pub open spec fn answered_at(self, opinion: bool, expire_sec: u32, now: u64) -> BidView {
        BidView { bid_state: answered(self.state_at(expire_sec, now), opinion), ..self }
    }

    /// The bid made from an offer at time `create_at`: in progress, with no
    /// owner recorded yet.
    pub open spec fn from_info(info: BidInfoView, create_at: u64) -> BidView {
        BidView {
            src_nft_id: info.src_nft_id,
            origin_owner: Seq::empty(),
            start_at: info.start_at,
            lasts: info.lasts,
            amount: info.amount,
            msg: info.msg,
            bid_from: info.bid_from,
            bid_state: BidState::InProgress,
            create_at,
        }
    }
}

/// Once `accept_bid` has recorded an answer, a bid is no longer in progress:
/// only a bid in progress moves, and only to approved, rejected or expired; an
/// approved, rejected, expired or consumed bid keeps its state.
pub proof fn lemma_accept_bid_settles(bid: BidView, opinion: bool, expire_sec: u32, now: u64)
    ensures
        bid.answered_at(opinion, expire_sec, now).bid_state != BidState::InProgress,
        bid.bid_state == BidState::InProgress ==> {
            let s = bid.answered_at(opinion, expire_sec, now).bid_state;
            s == BidState::Approved || s == BidState::Rejected || s == BidState::Expired
        },
        bid.bid_state != BidState::InProgress ==> bid.answered_at(opinion, expire_sec, now).bid_state
            == bid.bid_state,
{
}

/// A bid made by `from_info` ignores the owner and the state written in the
/// offer: two offers that differ only there give the same bid, in progress and
/// with no owner recorded.
pub proof fn lemma_from_info_ignores_offered_owner_and_state(
    first: BidInfoView,
    second: BidInfoView,
    create_at: u64,
)
    requires
        (BidInfoView { orgin_owner: second.orgin_owner, bid_state: second.bid_state, ..first }) == second,
    ensures
        BidView::from_info(first, create_at) == BidView::from_info(second, create_at),
        BidView::from_info(first, create_at).bid_state == BidState::InProgress,
        BidView::from_info(first, create_at).origin_owner == Seq::<char>::empty(),
{
}

/// A bid that is no longer in progress stays as it is: reading its state at
/// any time gives that state, and an answer changes nothing.
pub proof fn lemma_settled_is_stable(bid: BidView, opinion: bool, expire_sec: u32, now: u64)
    requires
        bid.bid_state != BidState::InProgress,
    ensures
        bid.state_at(expire_sec, now) == bid.bid_state,
        bid.answered_at(opinion, expire_sec, now) == bid,
{
}

/// Answering a bid a second time, with any opinion at any time, changes
/// nothing: the first answer stands.
pub proof fn lemma_answer_is_final(
    bid: BidView,
    first: bool,
    second: bool,
    expire_sec: u32,
    t1: u64,
    t2: u64,
)
    ensures
        bid.answered_at(first, expire_sec, t1).answered_at(second, expire_sec, t2)
            == bid.answered_at(first, expire_sec, t1),
{
}

/// Expiry only moves forward in time: a bid expired at `t1` is expired at
/// every later time, and a bid still in progress at `t2` was in progress at
/// every earlier time.
pub proof fn lemma_expiry_is_monotone(bid: BidView, expire_sec: u32, t1: u64, t2: u64)
    requires
        t1 <= t2,
    ensures
        bid.state_at(expire_sec, t1) == BidState::Expired ==> bid.state_at(expire_sec, t2)
            == BidState::Expired,
        bid.state_at(expire_sec, t2) == BidState::InProgress ==> bid.state_at(expire_sec, t1)
            == BidState::InProgress,
{
}

/// A bid in progress answered before its expiry becomes approved when the
/// opinion is true and rejected when it is false; answered after its expiry
/// it becomes expired, whatever the opinion.
pub proof fn lemma_answer_in_time(bid: BidView, opinion: bool, expire_sec: u32, now: u64)
    requires
        bid.bid_state == BidState::InProgress,
    ensures
        now <= bid.create_at + expire_sec * 1_000_000_000 ==> bid.answered_at(opinion, expire_sec, now).bid_state
            == (if opinion { BidState::Approved } else { BidState::Rejected }),
        now > bid.create_at + expire_sec * 1_000_000_000 ==> bid.answered_at(opinion, expire_sec, now).bid_state
            == BidState::Expired,
{
}

/// A bid in progress lives its whole window: read at any time up to its
/// creation time plus `expire_sec` seconds it is still in progress, and read
/// after that it is expired. Its state can be read exactly when that instant
/// fits in a `u64`.
pub proof fn lemma_bid_lives_its_whole_window(bid: BidView, expire_sec: u32, now: u64)
    requires
        bid.bid_state == BidState::InProgress,
    ensures
        now <= bid.create_at + expire_sec * 1_000_000_000 ==> bid.state_at(expire_sec, now)
            == BidState::InProgress,
        now > bid.create_at + expire_sec * 1_000_000_000 ==> bid.state_at(expire_sec, now)
            == BidState::Expired,
        bid.can_evaluate(expire_sec) <==> bid.create_at + expire_sec * 1_000_000_000 <= u64::MAX,
{
}

/// Converts seconds to nanoseconds.
pub fn sec_to_nano(sec: u32) -> (nano: u64)
    ensures
        nano == nanos(sec),
        nano == sec * 1_000_000_000,
{
    (sec as u64) * 1_000_000_000
}

impl Bid {
    /// A copy of the bid.
    pub fn duplicate(&self) -> (copy: Bid)
        ensures
            copy@ == self@,
    {
        Bid {
            src_nft_id: self.src_nft_id.clone(),
            origin_owner: self.origin_owner.clone(),
            start_at: self.start_at,
            lasts: self.lasts,
            amount: self.amount,
            msg: self.msg.clone(),
            bid_from: self.bid_from.clone(),
            bid_state: self.bid_state,
            create_at: self.create_at,
        }
    }

    /// The bid made from an offer, created at `create_at` (the block
    /// timestamp when the offer is made).
    pub fn from_info(bid: &BidInfo, create_at: u64) -> (made: Bid)
        ensures
            made@ == BidView::from_info(bid@, create_at),
    {
        Bid {
            src_nft_id: bid.src_nft_id.clone(),
            origin_owner: String::new(),
            start_at: bid.start_at,
            lasts: bid.lasts,
            amount: bid.amount,
            msg: bid.msg.clone(),
            bid_from: bid.bid_from.clone(),
            bid_state: BidState::InProgress,
            create_at,
        }
    }

    /// The state of the bid at time `now` (the current block timestamp),
    /// bids living `expire_sec` seconds.
    pub fn cur_state(&self, expire_sec: u32, now: u64) -> (state: BidState)
        requires
            self@.can_evaluate(expire_sec),
        ensures
            state == self@.state_at(expire_sec, now),
            self.bid_state == BidState::InProgress ==> (state == BidState::InProgress <==> now
                <= self.create_at + expire_sec * 1_000_000_000),
            self.bid_state == BidState::InProgress ==> (state == BidState::Expired <==> now
                > self.create_at + expire_sec * 1_000_000_000),
            self.bid_state != BidState::InProgress ==> state == self.bid_state,
    {
        match self.bid_state {
            BidState::InProgress => {
                if self.create_at + sec_to_nano(expire_sec) < now {
                    BidState::Expired
                } else {
                    BidState::InProgress
                }
            },
            _ => self.bid_state,
        }
    }

    /// Records the owner's answer at time `now` (the current block timestamp):
    /// a bid still in progress and not expired becomes approved or rejected;
    /// an expired one becomes expired; any other bid is left as it is.
    pub fn accept_bid(&mut self, opinion: bool, expire_sec: u32, now: u64)
        requires
            old(self)@.can_evaluate(expire_sec),
        ensures
            final(self)@ == old(self)@.answered_at(opinion, expire_sec, now),
            final(self).bid_state != BidState::InProgress,
            old(self).bid_state != BidState::InProgress ==> final(self).bid_state == old(self).bid_state,
    {
        self.bid_state = self.cur_state(expire_sec, now);
        match self.bid_state {
            BidState::InProgress => {
                if opinion {
                    self.bid_state = BidState::Approved;
                } else {
                    self.bid_state = BidState::Rejected;
                }
            },
            _ => {},
        }
    }
}

} // verus!
