# clips_nft

The logic of the ClipCash NFT contract (clips minted as NFTs with
EIP-2981-style royalties, a marketplace, and metadata rules), written in
Verus and proved against its contracts.

## Layout

- `src/` — the verified library. `env.rs` models the contract's ledger state
  (instance storage, persistent storage, the ledger time, the accounts that
  authorized the invocation, and the event log);
  every operation states in its contract how it reads and changes that model.
  - guards and checks: `guard_result.rs`, `guard_validator.rs`, `guards/`,
    `init_guard.rs`, `controls.rs`, `metadata_update_guard.rs`,
    `nft_existence_guard.rs`, `mint_authorization.rs`
  - minting: `mint_request.rs`, `mint_validator.rs`, `mint_service.rs`,
    `token_records.rs`, `ownership.rs`, `royalty_setup.rs`
  - metadata: `metadata/` (types, validation, builders and their JSON,
    storage), `metadata_*.rs`, `mint_metadata_*.rs`, `uri_index.rs`,
    `ipfs_metadata_generator.rs`
  - royalties and fees: `safe_math.rs`, `net_seller_amount.rs`, `fees.rs`,
    `maximum_royalty.rs`, `contract.rs`
  - marketplace: `marketplace/`, `listing_*.rs`
  - `migration.rs`, `events.rs`, `event_emitters.rs`
- `tests/` — tests of the library on concrete values.
- `app/` — the parts that need the Soroban SDK itself: XDR encoding of
  metadata records and the generic event helper.

Properties that span several operations are stated as public proof functions
named `lemma_*` next to the operations they speak of.
