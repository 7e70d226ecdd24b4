//! The one call this library makes into `near_sdk`: reading an NFT token
//! from the JSON bytes another contract returned.

use vstd::prelude::*;

verus! {

/// The owner account that the JSON text `json` gives for an NFT, when it reads
/// as a NEP-171 `Token`; `None` when it does not.
pub uninterp spec fn token_owner_in_json(json: Seq<u8>) -> Option<Seq<char>>;

/// Calls `near_sdk::serde_json::from_slice` to read `value` as a
/// `near_contract_standards::non_fungible_token::Token` and hands back its
/// `owner_id`. The result is named, not described: it is whatever
/// `token_owner_in_json` gives for the bytes.
#[verifier::external_body]
pub(crate) fn parse_token_owner(value: &[u8]) -> (owner: Option<String>)
    ensures
        match owner {
            Some(o) => token_owner_in_json(value@) == Some(o@),
            None => token_owner_in_json(value@) is None,
        },
{
    match near_sdk::serde_json::from_slice::<near_contract_standards::non_fungible_token::Token>(value) {
        Ok(token) => Some(token.owner_id),
        Err(_) => None,
    }
}

} // verus!
