//! Bids for leasing NFTs: the state machine of a lease bid, the book of bids
//! kept by the contract, and the decisions taken when an NFT owner answers a bid.

pub mod bid;
pub mod borrower;
pub mod contract;
pub mod near_env;
pub mod nft_owner;
pub mod view;

pub use crate::bid::{Bid, BidState};
pub use crate::borrower::Borrower;
pub use crate::contract::Contract;
pub use crate::nft_owner::Subject;
pub use crate::view::BidInfo;
