# donations

A verified model of the Sequester donations pallet. Each block, a configured
percentage of the transaction fees paid in it is added to a node-local running
sum; every update interval the sum is queued on chain by an unsigned
transaction, and the treasury's spend callback moves the queued amount into the
Sequester account, from which a reserve transfer sends it to Sequester.

Layout:

- `src/arith.rs` – balances and the percentage share of a fee (`sp_runtime::Percent`).
- `src/account.rs` – the Sequester pallet account (`frame_support::PalletId`).
- `src/types.rs` – origins, calls, events, errors, validity verdicts, locations and assets.
- `src/pallet.rs` – configuration, on-chain storage, the extrinsics, unsigned
  validation and the treasury spend callback.
- `src/offchain.rs` – the offchain worker's fee bookkeeping.
- `src/laws.rs` – properties that span several operations.
- `src/fees.rs`, `src/xcm_config.rs` – the fee calculator interface and the
  test runtime's message-handling components.
- `app/lib.rs` – node-side plumbing: local storage, lock, and conversions to
  the runtime's validity types.
