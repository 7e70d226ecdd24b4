//! The bids each borrower made.

use vstd::prelude::*;

use crate::contract::{Contract, ContractView};

verus! {

/// The ids of the bids one borrower made.
pub struct Borrower {
    pub bids: Vec<u64>,
}

impl Borrower {
    /// A borrower with no bids.
    pub fn new() -> (borrower: Borrower)
        ensures
            borrower.bids@ == Seq::<u64>::empty(),
    {
        Borrower { bids: Vec::new() }
    }
}

impl Contract {
    /// The bids recorded for `account_id`, if any.
    pub fn internal_get_borrower(&self, account_id: &String) -> (found: Option<Borrower>)
        ensures
            match found {
                Some(b) => self@.borrowers.contains_key(account_id@) && b.bids@ == self@.borrowers[account_id@],
                None => !self@.borrowers.contains_key(account_id@),
            },
    {
        match self.borrowers.get(account_id.as_str()) {
            Some(b) => {
                let bids = b.bids.clone();
                assert(bids@ =~= b.bids@);
                Some(Borrower { bids })
            },
            None => None,
        }
    }

    /// Records `borrower` as the bids of `account_id`.
    pub fn internal_save_borrower(&mut self, account_id: &String, borrower: &Borrower)
        ensures
            final(self)@ == (ContractView {
                borrowers: old(self)@.borrowers.insert(account_id@, borrower.bids@),
                ..old(self)@
            }),
    {
        let bids = borrower.bids.clone();
        assert(bids@ =~= borrower.bids@);
        self.borrowers.insert(account_id.clone(), Borrower { bids });
        assert(self@.borrowers =~= old(self)@.borrowers.insert(account_id@, borrower.bids@));
    }
}

} // verus!
