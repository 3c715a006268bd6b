# trickle

Continuous payment streams for Stellar/Soroban, with the protocol logic
written as state machines in Verus and proved against their contracts.

- `src/` — the verified library:
  - `common` — identities, stream/vesting metadata, error enums;
  - `stream` — per-stream escrow: accrual math, pause/resume/cancel,
    withdrawal, and laws (escrow conservation, frozen accrual while paused,
    the paused window cut out on resume, cancellation is terminal);
  - `factory` — request validation, deterministic deployment salts, the
    registry with per-sender and per-recipient indexes (kept consistent);
  - `fees` — basis-point fee math and fee accounting;
  - `vesting` — cliff + linear vesting math (bounds, monotonicity) and the
    vesting contract state;
  - `multistream` — proportional share math and storage;
  - `stream_nft` — the NFT contract's storage.
- `app/` — Soroban contract entry points: load state from contract storage,
  call the library, then perform the token transfers, deployments and
  events the library's results call for.
- `tests/` — scenario tests of the library, with a simple token ledger
  standing in for the host.
