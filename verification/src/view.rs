//! What callers see of a bid.

use std::collections::HashMap;

use vstd::prelude::*;

use crate::bid::{Bid, BidState, BidView};
use crate::contract::{ids_below, Contract, ContractView};
use crate::nft_owner::Subject;
use crate::borrower::Borrower;

verus! {

/// A bid as it is offered by a borrower and shown to callers.
pub struct BidInfo {
    pub src_nft_id: String,
    pub orgin_owner: String,
    pub start_at: u32,
    pub lasts: u32,
    pub amount: u128,
    pub msg: String,
    pub bid_from: String,
    pub bid_state: Option<BidState>,
}

/// The mathematical value of a [`BidInfo`].
pub struct BidInfoView {
    pub src_nft_id: Seq<char>,
    pub orgin_owner: Seq<char>,
    pub start_at: u32,
    pub lasts: u32,
    pub amount: u128,
    pub msg: Seq<char>,
    pub bid_from: Seq<char>,
    pub bid_state: Option<BidState>,
}

impl View for BidInfo {
    type V = BidInfoView;

    open spec fn view(&self) -> BidInfoView {
        BidInfoView {
            src_nft_id: self.src_nft_id@,
            orgin_owner: self.orgin_owner@,
            start_at: self.start_at,
            lasts: self.lasts,
            amount: self.amount,
            msg: self.msg@,
            bid_from: self.bid_from@,
            bid_state: self.bid_state,
        }
    }
}

impl BidInfoView {
    /// What callers see of a bid: its fields, with its state always given.
    pub open spec fn from_bid(bid: BidView) -> BidInfoView {
        BidInfoView {
            src_nft_id: bid.src_nft_id,
            orgin_owner: bid.origin_owner,
            start_at: bid.start_at,
            lasts: bid.lasts,
            amount: bid.amount,
            msg: bid.msg,
            bid_from: bid.bid_from,
            bid_state: Some(bid.bid_state),
        }
    }
}

impl<'a> From<&'a Bid> for BidInfo {
    fn from(bid: &'a Bid) -> (info: BidInfo) {
        BidInfo {
            src_nft_id: bid.src_nft_id.clone(),
            orgin_owner: bid.origin_owner.clone(),
            start_at: bid.start_at,
            lasts: bid.lasts,
            amount: bid.amount,
            msg: bid.msg.clone(),
            bid_from: bid.bid_from.clone(),
            bid_state: Some(bid.bid_state),
        }
    }
}

impl<'a> vstd::std_specs::convert::FromSpecImpl<&'a Bid> for BidInfo {
    open spec fn obeys_from_spec() -> bool {
        true
    }

    open spec fn from_spec(bid: &'a Bid) -> BidInfo {
        BidInfo {
            src_nft_id: bid.src_nft_id,
            orgin_owner: bid.origin_owner,
            start_at: bid.start_at,
            lasts: bid.lasts,
            amount: bid.amount,
            msg: bid.msg,
            bid_from: bid.bid_from,
            bid_state: Some(bid.bid_state),
        }
    }
}

/// What callers see of a bid carries every field of the bid as it is,
/// whatever the bid's state or owner, and shows the state itself.
pub proof fn lemma_bid_info_shows_the_bid(bid: BidView)
    ensures
        BidInfoView::from_bid(bid).src_nft_id == bid.src_nft_id,
        BidInfoView::from_bid(bid).orgin_owner == bid.origin_owner,
        BidInfoView::from_bid(bid).start_at == bid.start_at,
        BidInfoView::from_bid(bid).lasts == bid.lasts,
        BidInfoView::from_bid(bid).amount == bid.amount,
        BidInfoView::from_bid(bid).msg == bid.msg,
        BidInfoView::from_bid(bid).bid_from == bid.bid_from,
        BidInfoView::from_bid(bid).bid_state == Some(bid.bid_state),
{
}

/// Converting a bid with `BidInfo::from` carries every field of the bid as it
/// is, whatever the bid's state or owner, and shows the state itself.
pub proof fn lemma_bid_info_from_copies_the_bid<'a>(bid: &'a Bid)
    ensures
        <BidInfo as vstd::std_specs::convert::FromSpec<&'a Bid>>::obeys_from_spec(),
        <BidInfo as vstd::std_specs::convert::FromSpec<&'a Bid>>::from_spec(bid)@.src_nft_id == bid.src_nft_id@,
        <BidInfo as vstd::std_specs::convert::FromSpec<&'a Bid>>::from_spec(bid)@.orgin_owner == bid.origin_owner@,
        <BidInfo as vstd::std_specs::convert::FromSpec<&'a Bid>>::from_spec(bid).start_at == bid.start_at,
        <BidInfo as vstd::std_specs::convert::FromSpec<&'a Bid>>::from_spec(bid).lasts == bid.lasts,
        <BidInfo as vstd::std_specs::convert::FromSpec<&'a Bid>>::from_spec(bid).amount == bid.amount,
        <BidInfo as vstd::std_specs::convert::FromSpec<&'a Bid>>::from_spec(bid)@.msg == bid.msg@,
        <BidInfo as vstd::std_specs::convert::FromSpec<&'a Bid>>::from_spec(bid)@.bid_from == bid.bid_from@,
        <BidInfo as vstd::std_specs::convert::FromSpec<&'a Bid>>::from_spec(bid).bid_state == Some(bid.bid_state),
{
}

/// A listing made by `lists_bids` has a key for exactly the ids asked for,
/// whatever the state of those bids, and under each key every field of that
/// bid as it is.
pub proof fn lemma_listing_keeps_every_id(listed: Map<u64, BidInfo>, ids: Seq<u64>, bids: Seq<BidView>)
    requires
        lists_bids(listed, ids, bids),
    ensures
        forall|id: u64| #[trigger] listed.contains_key(id) <==> ids.contains(id),
        forall|id: u64| #[trigger] listed.contains_key(id) ==> {
            &&& listed[id]@.src_nft_id == bids[id as int].src_nft_id
            &&& listed[id]@.orgin_owner == bids[id as int].origin_owner
            &&& listed[id].start_at == bids[id as int].start_at
            &&& listed[id].lasts == bids[id as int].lasts
            &&& listed[id].amount == bids[id as int].amount
            &&& listed[id]@.msg == bids[id as int].msg
            &&& listed[id]@.bid_from == bids[id as int].bid_from
            &&& listed[id].bid_state == Some(bids[id as int].bid_state)
        },
{
}

/// `listed` maps exactly the ids in `ids` to what callers see of those bids.
pub open spec fn lists_bids(listed: Map<u64, BidInfo>, ids: Seq<u64>, bids: Seq<BidView>) -> bool {
    &&& forall|id: u64| #[trigger] listed.contains_key(id) <==> ids.contains(id)
    &&& forall|id: u64| #[trigger]
        listed.contains_key(id) ==> listed[id]@ == BidInfoView::from_bid(bids[id as int])
}

impl ContractView {
    /// The ids of the bids `sender_id` made; none if the sender is unknown.
    pub open spec fn sender_bids(self, sender_id: Seq<char>) -> Seq<u64> {
        if self.borrowers.contains_key(sender_id) {
            self.borrowers[sender_id]
        } else {
            Seq::empty()
        }
    }

    /// The ids of the bids made on `nft_id`; none if the NFT is unknown.
    pub open spec fn nft_bids(self, nft_id: Seq<char>) -> Seq<u64> {
        if self.subjects.contains_key(nft_id) {
            self.subjects[nft_id]
        } else {
            Seq::empty()
        }
    }
}

/// A borrower's or an NFT's list, once saved, is what listing by that sender
/// or that NFT goes through.
pub proof fn lemma_saved_lists_read_back(c: ContractView, key: Seq<char>, ids: Seq<u64>)
    ensures
        (ContractView { borrowers: c.borrowers.insert(key, ids), ..c }).sender_bids(key) == ids,
        (ContractView { subjects: c.subjects.insert(key, ids), ..c }).nft_bids(key) == ids,
{
}

/// Maps each id in `ids` to what callers see of that bid.
fn collect_bids(contract: &Contract, ids: &Vec<u64>) -> (listed: HashMap<u64, BidInfo>)
    requires
        ids_below(ids@, contract@.bids.len()),
    ensures
        lists_bids(listed@, ids@, contract@.bids),
{
    broadcast use vstd::std_specs::hash::group_hash_axioms;

    let mut listed: HashMap<u64, BidInfo> = HashMap::new();
    let mut i: usize = 0;
    while i < ids.len()
        invariant
            i <= ids.len(),
            ids_below(ids@, contract@.bids.len()),
            lists_bids(listed@, ids@.take(i as int), contract@.bids),
        decreases ids.len() - i,
    {
        let id = ids[i];
        assert(id < contract@.bids.len()) by {
            assert(ids@[i as int] == id);
        }
        match contract.get_bid(id) {
            Some(info) => {
                listed.insert(id, info);
            },
            None => {},
        }
        let ghost seen = ids@.take(i as int);
        assert(ids@.take(i + 1) =~= seen.push(id));
        assert forall|k: u64| #[trigger] listed@.contains_key(k) <==> seen.push(id).contains(k) by {
            if k == id {
                assert(seen.push(id)[seen.len() as int] == id);
            } else if seen.push(id).contains(k) {
                let j = choose|j: int| 0 <= j < seen.push(id).len() && seen.push(id)[j] == k;
                assert(seen[j] == k);
            } else if seen.contains(k) {
                let j = choose|j: int| 0 <= j < seen.len() && seen[j] == k;
                assert(seen.push(id)[j] == k);
            }
        }
        i = i + 1;
    }
    assert(ids@.take(ids.len() as int) =~= ids@);
    listed
}

impl Contract {
    /// What callers see of bid `bid_id`, or `None` when there is no such bid.
    pub fn get_bid(&self, bid_id: u64) -> (found: Option<BidInfo>)
        ensures
            match found {
                Some(info) => bid_id < self@.bids.len() && info@ == BidInfoView::from_bid(
                    self@.bids[bid_id as int],
                ),
                None => bid_id >= self@.bids.len(),
            },
            match found {
                Some(info) => {
                    &&& info@.src_nft_id == self@.bids[bid_id as int].src_nft_id
                    &&& info@.orgin_owner == self@.bids[bid_id as int].origin_owner
                    &&& info.start_at == self@.bids[bid_id as int].start_at
                    &&& info.lasts == self@.bids[bid_id as int].lasts
                    &&& info.amount == self@.bids[bid_id as int].amount
                    &&& info@.msg == self@.bids[bid_id as int].msg
                    &&& info@.bid_from == self@.bids[bid_id as int].bid_from
                    &&& info.bid_state == Some(self@.bids[bid_id as int].bid_state)
                },
                None => true,
            },
    {
        assert(self@.bids.len() == self.bids.len());
        if bid_id < self.bids.len() as u64 {
            let idx = bid_id as usize;
            assert(self@.bids[bid_id as int] == self.bids@[bid_id as int]@);
            Some(BidInfo::from(&self.bids[idx]))
        } else {
            None
        }
    }

    /// The bids `sender_id` made, by id.
    pub fn list_bids_by_sender(&self, sender_id: &String) -> (listed: HashMap<u64, BidInfo>)
        requires
            ids_below(self@.sender_bids(sender_id@), self@.bids.len()),
        ensures
            lists_bids(listed@, self@.sender_bids(sender_id@), self@.bids),
            forall|id: u64| #[trigger] listed@.contains_key(id) <==> self@.sender_bids(sender_id@).contains(id),
            forall|id: u64| #[trigger] listed@.contains_key(id) ==> listed@[id].amount == self@.bids[id as int].amount
                && listed@[id].bid_state == Some(self@.bids[id as int].bid_state)
                && listed@[id]@.bid_from == self@.bids[id as int].bid_from
                && listed@[id]@.src_nft_id == self@.bids[id as int].src_nft_id,
    {
        let borrower = match self.internal_get_borrower(sender_id) {
            Some(b) => b,
            None => Borrower::new(),
        };
        collect_bids(self, &borrower.bids)
    }

    /// The bids made on `nft_id`, by id.
    pub fn list_bids_by_nft(&self, nft_id: String) -> (listed: HashMap<u64, BidInfo>)
        requires
            ids_below(self@.nft_bids(nft_id@), self@.bids.len()),
        ensures
            lists_bids(listed@, self@.nft_bids(nft_id@), self@.bids),
            forall|id: u64| #[trigger] listed@.contains_key(id) <==> self@.nft_bids(nft_id@).contains(id),
            forall|id: u64| #[trigger] listed@.contains_key(id) ==> listed@[id].amount == self@.bids[id as int].amount
                && listed@[id].bid_state == Some(self@.bids[id as int].bid_state)
                && listed@[id]@.bid_from == self@.bids[id as int].bid_from
                && listed@[id]@.src_nft_id == self@.bids[id as int].src_nft_id,
    {
        let subject = match self.internal_get_subject(&nft_id) {
            Some(s) => s,
            None => Subject::new(),
        };
        collect_bids(self, &subject.bids)
    }
}

} // verus!
