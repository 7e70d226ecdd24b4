//! What NFT owners do: answer bids on their NFTs.

use vstd::prelude::*;
use vstd::string::{StrSliceExecFns, StringExecFns};

use crate::bid::{sec_to_nano, BidState};
use crate::contract::{Contract, ContractView};
use crate::near_env::{parse_token_owner, token_owner_in_json};

verus! {

/// The ids of the bids made on one NFT.
pub struct Subject {
    pub bids: Vec<u64>,
}

impl Subject {
    /// An NFT with no bids.
    pub fn new() -> (subject: Subject)
        ensures
            subject.bids@ == Seq::<u64>::empty(),
    {
        Subject { bids: Vec::new() }
    }
}

impl Contract {
    /// The bids recorded for `nft_id`, if any.
    pub fn internal_get_subject(&self, nft_id: &String) -> (found: Option<Subject>)
        ensures
            match found {
                Some(s) => self@.subjects.contains_key(nft_id@) && s.bids@ == self@.subjects[nft_id@],
                None => !self@.subjects.contains_key(nft_id@),
            },
    {
        match self.subjects.get(nft_id.as_str()) {
            Some(s) => {
                let bids = s.bids.clone();
                assert(bids@ =~= s.bids@);
                Some(Subject { bids })
            },
            None => None,
        }
    }

    /// Records `subject` as the bids of `nft_id`.
    pub fn internal_save_subject(&mut self, nft_id: &String, subject: &Subject)
        ensures
            final(self)@ == (ContractView {
                subjects: old(self)@.subjects.insert(nft_id@, subject.bids@),
                ..old(self)@
            }),
    {
        let bids = subject.bids.clone();
        assert(bids@ =~= subject.bids@);
        self.subjects.insert(nft_id.clone(), Subject { bids });
        assert(self@.subjects =~= old(self)@.subjects.insert(nft_id@, subject.bids@));
    }
}

/// Where the first `:` of `s` stands; the length of `s` when it has none.
pub open spec fn first_colon(s: Seq<char>) -> int
    decreases s.len(),
{
    if s.len() == 0 {
        0
    } else if s[0] == ':' {
        0
    } else {
        1 + first_colon(s.drop_first())
    }
}

/// The NFT contract named by a global NFT id `contract_id:token_id`: what
/// stands before its first `:`.
pub open spec fn nft_contract_part(src_nft_id: Seq<char>) -> Seq<char> {
    src_nft_id.take(first_colon(src_nft_id))
}

/// The token named by a global NFT id `contract_id:token_id`: what stands
/// after its first `:`.
pub open spec fn nft_token_part(src_nft_id: Seq<char>) -> Seq<char> {
    src_nft_id.skip(first_colon(src_nft_id) + 1)
}

/// `pos` is where the first `:` of `s` stands.
proof fn lemma_first_colon_at(s: Seq<char>, pos: int)
    requires
        0 <= pos < s.len(),
        s[pos] == ':',
        forall|j: int| 0 <= j < pos ==> s[j] != ':',
    ensures
        first_colon(s) == pos,
    decreases pos,
{
    if pos > 0 {
        assert forall|j: int| 0 <= j < pos - 1 implies s.drop_first()[j] != ':' by {
            assert(s.drop_first()[j] == s[j + 1]);
        }
        lemma_first_colon_at(s.drop_first(), pos - 1);
    }
}

/// In a sequence that holds a `:`, `first_colon` is where the first one stands.
proof fn lemma_first_colon_found(s: Seq<char>)
    requires
        s.contains(':'),
    ensures
        0 <= first_colon(s) < s.len(),
        s[first_colon(s)] == ':',
        forall|j: int| 0 <= j < first_colon(s) ==> s[j] != ':',
    decreases s.len(),
{
    if s[0] != ':' {
        let k = choose|k: int| 0 <= k < s.len() && s[k] == ':';
        assert(s.drop_first()[k - 1] == ':');
        lemma_first_colon_found(s.drop_first());
        assert forall|j: int| 0 <= j < first_colon(s) implies s[j] != ':' by {
            if j > 0 {
                assert(s[j] == s.drop_first()[j - 1]);
            }
        }
    }
}

/// A global NFT id with a `:` is its contract part, a `:`, and its token part,
/// and the contract part holds no `:`.
pub proof fn lemma_nft_id_parts(src_nft_id: Seq<char>)
    requires
        src_nft_id.contains(':'),
    ensures
        nft_contract_part(src_nft_id) + seq![':'] + nft_token_part(src_nft_id) == src_nft_id,
        !nft_contract_part(src_nft_id).contains(':'),
{
    lemma_first_colon_found(src_nft_id);
    assert(nft_contract_part(src_nft_id) + seq![':'] + nft_token_part(src_nft_id) =~= src_nft_id);
    if nft_contract_part(src_nft_id).contains(':') {
        let j = choose|j: int| 0 <= j < nft_contract_part(src_nft_id).len() && nft_contract_part(src_nft_id)[j] == ':';
        assert(src_nft_id[j] == ':');
    }
}

/// Splits a global NFT id `contract_id:token_id` at its first `:`.
pub fn split_nft_id(src_nft_id: &str) -> (parts: (String, String))
    requires
        src_nft_id@.contains(':'),
    ensures
        parts.0@ == nft_contract_part(src_nft_id@),
        parts.1@ == nft_token_part(src_nft_id@),
{
    let n = src_nft_id.unicode_len();
    let mut pos: usize = 0;
    while pos < n && src_nft_id.get_char(pos) != ':'
        invariant
            pos <= n,
            n == src_nft_id@.len(),
            forall|j: int| 0 <= j < pos ==> src_nft_id@[j] != ':',
        decreases n - pos,
    {
        pos = pos + 1;
    }
    assert(pos < n) by {
        if pos == n {
            let j = choose|j: int| 0 <= j < src_nft_id@.len() && src_nft_id@[j] == ':';
            assert(src_nft_id@[j] != ':');
        }
    }
    proof {
        lemma_first_colon_at(src_nft_id@, pos as int);
    }
    let token_contract = String::from_str(src_nft_id.substring_char(0, pos));
    let token_id = String::from_str(src_nft_id.substring_char(pos + 1, n));
    assert(token_contract@ =~= nft_contract_part(src_nft_id@));
    assert(token_id@ =~= nft_token_part(src_nft_id@));
    (token_contract, token_id)
}

/// What became of an owner's answer to a bid, once the NFT contract said who
/// owns the NFT.
#[derive(Clone, Copy, Debug, PartialEq, Eq, Structural)]
pub enum CallbackOutcome {
    /// The NFT contract gave no owner: nothing is recorded.
    Ignored,
    /// The one who answered does not own the NFT: nothing is recorded.
    NotOwner,
    /// There is no bid with that id: nothing is recorded.
    NoBid,
    /// The bid's expiry instant does not fit in a `u64`: nothing is recorded.
    DeadlineOverflow,
    /// The answer was recorded on the bid.
    Taken,
}

/// The result of the call that asked the NFT contract for the token.
pub enum PromiseOutcome {
    NotReady,
    Failed,
    /// The call succeeded with these bytes, the token as JSON.
    Successful(Vec<u8>),
}

impl ContractView {
    /// What becomes of `caller`'s answer on bid `bid_id` when the NFT's owner
    /// is `nft_owner` (`None` when the NFT contract gave none).
    pub open spec fn owner_answer(self, caller: Seq<char>, bid_id: u64, nft_owner: Option<Seq<char>>) -> CallbackOutcome {
        match nft_owner {
            None => CallbackOutcome::Ignored,
            Some(owner) => if owner != caller {
                CallbackOutcome::NotOwner
            } else if bid_id >= self.bids.len() {
                CallbackOutcome::NoBid
            } else if !self.can_take_offer(bid_id) {
                CallbackOutcome::DeadlineOverflow
            } else {
                CallbackOutcome::Taken
            },
        }
    }
}

/// An answer is recorded only when the one who answered is the NFT's owner
/// and the bid exists.
pub proof fn lemma_only_owner_answers(c: ContractView, caller: Seq<char>, bid_id: u64, nft_owner: Option<Seq<char>>)
    ensures
        c.owner_answer(caller, bid_id, nft_owner) == CallbackOutcome::Taken ==> nft_owner == Some(caller)
            && bid_id < c.bids.len(),
{
}

/// What becomes of an answer, in terms of who answered and the bid alone:
/// nothing is recorded when the NFT contract gave no owner, or gave an owner
/// other than the one who answered, or when no bid has that id; when the one
/// who answered owns the NFT and the bid exists, the answer is recorded,
/// unless the bid is in progress and its expiry instant overflows a `u64`.
pub proof fn lemma_owner_answer_is_recorded(c: ContractView, caller: Seq<char>, bid_id: u64, nft_owner: Option<Seq<char>>)
    ensures
        nft_owner is None ==> c.owner_answer(caller, bid_id, nft_owner) == CallbackOutcome::Ignored,
        (nft_owner is Some && nft_owner->0 != caller) ==> c.owner_answer(caller, bid_id, nft_owner)
            == CallbackOutcome::NotOwner,
        (nft_owner == Some(caller) && bid_id >= c.bids.len()) ==> c.owner_answer(caller, bid_id, nft_owner)
            == CallbackOutcome::NoBid,
        (nft_owner == Some(caller) && bid_id < c.bids.len() && (c.bids[bid_id as int].bid_state
            == BidState::InProgress ==> c.bids[bid_id as int].create_at + c.bid_expire_sec * 1_000_000_000
            <= u64::MAX)) ==> c.owner_answer(caller, bid_id, nft_owner) == CallbackOutcome::Taken,
        (nft_owner == Some(caller) && bid_id < c.bids.len() && c.bids[bid_id as int].bid_state
            == BidState::InProgress && c.bids[bid_id as int].create_at + c.bid_expire_sec * 1_000_000_000
            > u64::MAX) ==> c.owner_answer(caller, bid_id, nft_owner) == CallbackOutcome::DeadlineOverflow,
{
}

impl Contract {
    /// The NFT contract and the token id to ask about, to check who owns the
    /// NFT that bid `bid_id` is on.
    pub fn take_offer(&self, bid_id: u64) -> (target: (String, String))
        requires
            bid_id < self@.bids.len(),
            self@.bids[bid_id as int].src_nft_id.contains(':'),
        ensures
            target.0@ == nft_contract_part(self@.bids[bid_id as int].src_nft_id),
            target.1@ == nft_token_part(self@.bids[bid_id as int].src_nft_id),
    {
        assert(self@.bids.len() == self.bids.len());
        let idx = bid_id as usize;
        assert(self@.bids[bid_id as int] == self.bids@[bid_id as int]@);
        split_nft_id(self.bids[idx].src_nft_id.as_str())
    }

    /// Checks whether the answer can be recorded, without recording it.
    fn owner_answer_check(&self, caller: &String, bid_id: u64, nft_owner: &Option<String>) -> (outcome: CallbackOutcome)
        ensures
            outcome == self@.owner_answer(caller@, bid_id, match nft_owner {
                Some(o) => Some(o@),
                None => None,
            }),
    {
        match nft_owner {
            None => CallbackOutcome::Ignored,
            Some(owner) => {
                assert(self@.bids.len() == self.bids.len());
                if *owner != *caller {
                    CallbackOutcome::NotOwner
                } else if bid_id >= self.bids.len() as u64 {
                    CallbackOutcome::NoBid
                } else {
                    let idx = bid_id as usize;
                    assert(self@.bids[bid_id as int] == self.bids@[bid_id as int]@);
                    let bid = &self.bids[idx];
                    if bid.bid_state == BidState::InProgress && bid.create_at > u64::MAX - sec_to_nano(self.bid_expire_sec) {
                        CallbackOutcome::DeadlineOverflow
                    } else {
                        CallbackOutcome::Taken
                    }
                }
            },
        }
    }

    /// Records `caller`'s answer `opinion` on bid `bid_id` at time `now` (the
    /// current block timestamp), when the NFT contract said the NFT's owner is
    /// `nft_owner`.
    pub fn resolve_nft_owner(&mut self, caller: &String, bid_id: u64, opinion: bool, nft_owner: &Option<String>, now: u64) -> (outcome: CallbackOutcome)
        ensures
            outcome == old(self)@.owner_answer(caller@, bid_id, match nft_owner {
                Some(o) => Some(o@),
                None => None,
            }),
            outcome == CallbackOutcome::Taken ==> final(self)@ == old(self)@.took_offer(caller@, bid_id, opinion, now),
            outcome != CallbackOutcome::Taken ==> final(self)@ == old(self)@,
            (nft_owner matches Some(o) && o@ == caller@ && bid_id < old(self)@.bids.len() && (old(self)@.bids[bid_id as int].bid_state
                == BidState::InProgress ==> old(self)@.bids[bid_id as int].create_at + old(self)@.bid_expire_sec * 1_000_000_000
                <= u64::MAX)) ==> outcome == CallbackOutcome::Taken,
    {
        let outcome = self.owner_answer_check(caller, bid_id, nft_owner);
        if outcome == CallbackOutcome::Taken {
            self.internal_take_offer(caller, bid_id, opinion, now);
        }
        outcome
    }

    /// Handles the NFT contract's answer about who owns the NFT of bid
    /// `bid_id`, at time `now` (the current block timestamp): the answer
    /// `opinion` of `caller` is recorded only when the call succeeded, its bytes
    /// read as a token, and `caller` owns it. Also hands back the owner the
    /// bytes named, if any.
    pub fn on_nft_token_callback(&mut self, caller: String, bid_id: u64, opinion: bool, result: &PromiseOutcome, now: u64) -> (answer: (CallbackOutcome, Option<String>))
        requires
            !(result is NotReady),
        ensures
            answer.0 == match result {
                PromiseOutcome::Successful(value) => old(self)@.owner_answer(caller@, bid_id, token_owner_in_json(value@)),
                _ => CallbackOutcome::Ignored,
            },
            match result {
                PromiseOutcome::Successful(value) => match answer.1 {
                    Some(o) => token_owner_in_json(value@) == Some(o@),
                    None => token_owner_in_json(value@) is None,
                },
                _ => answer.1 is None,
            },
            answer.0 == CallbackOutcome::Taken ==> final(self)@ == old(self)@.took_offer(caller@, bid_id, opinion, now),
            answer.0 != CallbackOutcome::Taken ==> final(self)@ == old(self)@,
    {
        match result {
            PromiseOutcome::Successful(value) => {
                let nft_owner = parse_token_owner(value.as_slice());
                let outcome = self.resolve_nft_owner(&caller, bid_id, opinion, &nft_owner, now);
                (outcome, nft_owner)
            },
            _ => (CallbackOutcome::Ignored, None),
        }
    }
}

} // verus!
