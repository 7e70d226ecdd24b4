//! The contract's book of bids and what it does when a bid is added or answered.

use vstd::prelude::*;
use vstd::hash_map::StringHashMap;
use vstd::string::StringExecFns;

use crate::bid::{Bid, BidState, BidView};
use crate::borrower::Borrower;
use crate::nft_owner::Subject;
use crate::view::{BidInfo, BidInfoView};

verus! {

/// How long a bid stays open: one week, in seconds.
pub const BID_EXPIRE_SEC: u32 = 604800;

/// The state of the NFT Never Sleep contract that concerns lease bids. The
/// bids and the per-borrower and per-NFT lists are held in plain collections:
/// the chain-storage collections of `near_sdk` take only items that are
/// borsh-serializable, and the types of this library cannot derive that.
pub struct Contract {
    pub owner_id: String,
    pub token_num: u32,
    /// All bids ever made; a bid's id is its index.
    pub bids: Vec<Bid>,
    pub bid_expire_sec: u32,
    /// The ids of the bids each borrower made.
    pub borrowers: StringHashMap<Borrower>,
    /// The ids of the bids made on each NFT.
    pub subjects: StringHashMap<Subject>,
}

/// The mathematical value of a [`Contract`].
#[verifier::ext_equal]
pub struct ContractView {
    pub owner_id: Seq<char>,
    pub token_num: u32,
    pub bids: Seq<BidView>,
    pub bid_expire_sec: u32,
    pub borrowers: Map<Seq<char>, Seq<u64>>,
    pub subjects: Map<Seq<char>, Seq<u64>>,
}

impl View for Contract {
    type V = ContractView;

    open spec fn view(&self) -> ContractView {
        ContractView {
            owner_id: self.owner_id@,
            token_num: self.token_num,
            bids: self.bids@.map_values(|b: Bid| b@),
            bid_expire_sec: self.bid_expire_sec,
            borrowers: self.borrowers@.map_values(|b: Borrower| b.bids@),
            subjects: self.subjects@.map_values(|s: Subject| s.bids@),
        }
    }
}

/// Every id in `ids` names one of `n` bids.
pub open spec fn ids_below(ids: Seq<u64>, n: nat) -> bool {
    forall|i: int| 0 <= i < ids.len() ==> #[trigger] ids[i] < n
}

impl ContractView {
    /// Every bid id listed for a borrower or an NFT names an existing bid.
    pub open spec fn ids_valid(self) -> bool {
        &&& forall|k: Seq<char>| #[trigger]
            self.borrowers.contains_key(k) ==> ids_below(self.borrowers[k], self.bids.len())
        &&& forall|k: Seq<char>| #[trigger]
            self.subjects.contains_key(k) ==> ids_below(self.subjects[k], self.bids.len())
    }

    /// The contract after a bid made from `info` at time `create_at` was added.
    pub open spec fn added_bid(self, info: BidInfoView, create_at: u64) -> ContractView {
        ContractView { bids: self.bids.push(BidView::from_info(info, create_at)), ..self }
    }

    /// The bid `bid_id` can be answered: it exists and its state can be read.
    pub open spec fn can_take_offer(self, bid_id: u64) -> bool {
        &&& bid_id < self.bids.len()
        &&& self.bids[bid_id as int].can_evaluate(self.bid_expire_sec)
    }

    /// The contract after `owner` answered `opinion` on bid `bid_id` at time `now`:
    /// the bid records the answer and its owner, nothing else changes.
    pub open spec fn took_offer(self, owner: Seq<char>, bid_id: u64, opinion: bool, now: u64) -> ContractView {
        ContractView {
            bids: self.bids.update(
                bid_id as int,
                BidView {
                    origin_owner: owner,
                    ..self.bids[bid_id as int].answered_at(opinion, self.bid_expire_sec, now)
                },
            ),
            ..self
        }
    }
}

/// A bid added from an offer reads back as that offer, in progress, with no
/// owner recorded yet, under the id the contract had as its number of bids;
/// the bids before it are unchanged.
pub proof fn lemma_added_bid_reads_back(c: ContractView, info: BidInfoView, create_at: u64)
    ensures
        c.added_bid(info, create_at).bids.len() == c.bids.len() + 1,
        BidInfoView::from_bid(c.added_bid(info, create_at).bids[c.bids.len() as int])
            == (BidInfoView {
            orgin_owner: Seq::empty(),
            bid_state: Some(BidState::InProgress),
            ..info
        }),
        forall|i: int| 0 <= i < c.bids.len() ==> #[trigger] c.added_bid(info, create_at).bids[i] == c.bids[i],
        c.added_bid(info, create_at).bids[c.bids.len() as int].create_at == create_at,
        c.added_bid(info, create_at).bids[c.bids.len() as int].bid_state == BidState::InProgress,
        c.added_bid(info, create_at).bids[c.bids.len() as int].origin_owner == Seq::<char>::empty(),
        c.added_bid(info, create_at).bids[c.bids.len() as int].amount == info.amount,
        c.added_bid(info, create_at).bids[c.bids.len() as int].bid_from == info.bid_from,
        c.added_bid(info, create_at).bids[c.bids.len() as int].src_nft_id == info.src_nft_id,
{
}

/// Answering bid `bid_id` touches that bid alone: every other bid, the number
/// of bids, and the borrowers' and NFTs' lists stay as they were, and the
/// answered bid records who answered.
pub proof fn lemma_take_offer_is_local(c: ContractView, owner: Seq<char>, bid_id: u64, opinion: bool, now: u64)
    requires
        bid_id < c.bids.len(),
    ensures
        c.took_offer(owner, bid_id, opinion, now).bids.len() == c.bids.len(),
        c.took_offer(owner, bid_id, opinion, now).bids[bid_id as int].origin_owner == owner,
        forall|i: int| 0 <= i < c.bids.len() && i != bid_id ==> #[trigger] c.took_offer(owner, bid_id, opinion, now).bids[i] == c.bids[i],
        c.took_offer(owner, bid_id, opinion, now).borrowers == c.borrowers,
        c.took_offer(owner, bid_id, opinion, now).subjects == c.subjects,
        c.took_offer(owner, bid_id, opinion, now).bid_expire_sec == c.bid_expire_sec,
        c.took_offer(owner, bid_id, opinion, now).owner_id == c.owner_id,
        ({
            let before = c.bids[bid_id as int];
            let after = c.took_offer(owner, bid_id, opinion, now).bids[bid_id as int];
            &&& after.src_nft_id == before.src_nft_id
            &&& after.start_at == before.start_at
            &&& after.lasts == before.lasts
            &&& after.amount == before.amount
            &&& after.msg == before.msg
            &&& after.bid_from == before.bid_from
            &&& after.create_at == before.create_at
            &&& (before.bid_state == BidState::InProgress && now <= before.create_at + c.bid_expire_sec
                * 1_000_000_000) ==> after.bid_state == (if opinion {
                BidState::Approved
            } else {
                BidState::Rejected
            })
            &&& (before.bid_state == BidState::InProgress && now > before.create_at + c.bid_expire_sec
                * 1_000_000_000) ==> after.bid_state == BidState::Expired
            &&& before.bid_state != BidState::InProgress ==> after.bid_state == before.bid_state
        }),
{
}

/// Every listed bid id keeps naming an existing bid when a bid is added or
/// answered, and when a borrower's or an NFT's list is saved whose ids all name
/// existing bids.
pub proof fn lemma_ids_stay_valid(
    c: ContractView,
    info: BidInfoView,
    create_at: u64,
    owner: Seq<char>,
    bid_id: u64,
    opinion: bool,
    now: u64,
    key: Seq<char>,
    ids: Seq<u64>,
)
    requires
        c.ids_valid(),
    ensures
        c.added_bid(info, create_at).ids_valid(),
        bid_id < c.bids.len() ==> c.took_offer(owner, bid_id, opinion, now).ids_valid(),
        ids_below(ids, c.bids.len()) ==> (ContractView { borrowers: c.borrowers.insert(key, ids), ..c }).ids_valid(),
        ids_below(ids, c.bids.len()) ==> (ContractView { subjects: c.subjects.insert(key, ids), ..c }).ids_valid(),
{
    let a = c.added_bid(info, create_at);
    assert forall|k: Seq<char>| #[trigger] a.borrowers.contains_key(k) implies ids_below(a.borrowers[k], a.bids.len()) by {
        assert(ids_below(c.borrowers[k], c.bids.len()));
    }
    assert forall|k: Seq<char>| #[trigger] a.subjects.contains_key(k) implies ids_below(a.subjects[k], a.bids.len()) by {
        assert(ids_below(c.subjects[k], c.bids.len()));
    }
}

/// The NEP-177 metadata of the contract, as plain values.
pub struct ContractMetadata {
    pub spec: String,
    pub name: String,
    pub symbol: String,
    pub icon: Option<String>,
    pub base_uri: Option<String>,
    pub reference: Option<String>,
    pub reference_hash: Option<Vec<u8>>,
}

/// The contract's metadata: named "Nft Never Sleep" with symbol "nns", under
/// the metadata standard version `spec`, with the given `icon`, and no base
/// URI, reference or reference hash.
pub fn nft_contract_metadata(spec: String, icon: Option<String>) -> (metadata: ContractMetadata)
    ensures
        metadata.spec@ == spec@,
        metadata.name@ == "Nft Never Sleep"@,
        metadata.symbol@ == "nns"@,
        metadata.icon == icon,
        metadata.base_uri is None,
        metadata.reference is None,
        metadata.reference_hash is None,
{
    ContractMetadata {
        spec,
        name: String::from_str("Nft Never Sleep"),
        symbol: String::from_str("nns"),
        icon,
        base_uri: None,
        reference: None,
        reference_hash: None,
    }
}

/// Why a token cannot be minted.
#[derive(Clone, Copy, Debug, PartialEq, Eq, Structural)]
pub enum MintError {
    /// The contract keeps token metadata, and none was given.
    MissingMetadata,
    /// A token with this id already exists.
    DuplicateTokenId,
}

/// Decides whether a token can be minted: metadata must be given when the
/// contract keeps metadata (checked first), and the token id must be new.
pub fn internal_mint_check(keeps_metadata: bool, metadata_given: bool, token_id_taken: bool) -> (checked: Result<(), MintError>)
    ensures
        checked == (if keeps_metadata && !metadata_given {
            Err(MintError::MissingMetadata)
        } else if token_id_taken {
            Err(MintError::DuplicateTokenId)
        } else {
            Ok(())
        }),
{
    if keeps_metadata && !metadata_given {
        return Err(MintError::MissingMetadata);
    }
    if token_id_taken {
        return Err(MintError::DuplicateTokenId);
    }
    Ok(())
}

impl Contract {
    /// A contract owned by `owner_id`, with no bids.
    pub fn new(owner_id: String) -> (contract: Contract)
        ensures
            contract@ == (ContractView {
                owner_id: owner_id@,
                token_num: 0,
                bids: Seq::empty(),
                bid_expire_sec: BID_EXPIRE_SEC,
                borrowers: Map::empty(),
                subjects: Map::empty(),
            }),
    {
        let contract = Contract {
            owner_id,
            token_num: 0,
            bids: Vec::new(),
            bid_expire_sec: BID_EXPIRE_SEC,
            borrowers: StringHashMap::new(),
            subjects: StringHashMap::new(),
        };
        assert(contract@.bids =~= Seq::empty());
        assert(contract@.borrowers =~= Map::empty());
        assert(contract@.subjects =~= Map::empty());
        contract
    }

    /// Adds the bid made from `bid_info`, created at `create_at` (the block
    /// timestamp when the offer is made), and returns its id.
    pub fn internal_add_bid(&mut self, bid_info: &BidInfo, create_at: u64) -> (id: u64)
        ensures
            id == old(self)@.bids.len(),
            final(self)@ == old(self)@.added_bid(bid_info@, create_at),
    {
        let bid = Bid::from_info(bid_info, create_at);
        let id = self.bids.len() as u64;
        self.bids.push(bid);
        assert(self@.bids =~= old(self)@.bids.push(BidView::from_info(bid_info@, create_at)));
        id
    }

    /// Records that `owner_id` answered `opinion` on bid `bid_id` at time `now`
    /// (the current block timestamp).
    pub fn internal_take_offer(&mut self, owner_id: &String, bid_id: u64, opinion: bool, now: u64)
        requires
            old(self)@.can_take_offer(bid_id),
        ensures
            final(self)@ == old(self)@.took_offer(owner_id@, bid_id, opinion, now),
    {
        assert(self@.bids.len() == self.bids.len());
        let idx = bid_id as usize;
        assert(self@.bids[bid_id as int] == self.bids@[bid_id as int]@);
        let mut bid = self.bids[idx].duplicate();
        bid.accept_bid(opinion, self.bid_expire_sec, now);
        bid.origin_owner = owner_id.clone();
        self.bids.set(idx, bid);
        assert(self@.bids =~= old(self)@.took_offer(owner_id@, bid_id, opinion, now).bids);
    }
}

} // verus!
