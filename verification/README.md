# nns

The bid logic of the NFT Never Sleep lease contract on NEAR, verified with Verus.

- `src/bid.rs`: the life of a bid (in progress, approved, rejected, expired,
  consumed) and how reading its state and recording the owner's answer
  change it.
- `src/contract.rs`: the contract's book of bids: creation, its metadata,
  adding a bid, recording an answer, and the mint precondition check. Bids and
  the per-borrower and per-NFT lists are held in `Vec` and `StringHashMap`:
  the chain-storage collections of `near_sdk` (`Vector`, `LookupMap`) take only
  borsh-serializable items, and the library's types cannot derive borsh.
- `src/nft_owner.rs`: splitting a global NFT id `contract:token`, and what
  the contract does with the NFT contract's reply about who owns an NFT.
- `src/view.rs`, `src/borrower.rs`: what callers see of bids, and the lists
  of bids per NFT and per borrower.
- `src/near_env.rs`: the one call into `near_sdk` (reading a token from JSON).
  The block time is read by `app/` and handed to the library as `now`.
- `app/`: the NEAR contract itself: chain storage, cross-contract calls, logs
  and the NFT standard's entry points, calling the library for every decision.
