# gig_basic_contract

The rules of a gig-marketplace escrow program, verified with Verus.

- `src/` is the verified library. Each instruction (`src/instructions/`) takes
  the stored contract, the signer's address and the amounts it needs, decides
  whether the request is allowed, updates the contract, and returns the
  transfers to make. Its contract states the outcome exactly, for most
  instructions through a spec function ending in `_outcome`; a refused request
  leaves the contract unchanged. `src/laws.rs` proves properties across instructions: the
  weekly cycle of an hourly contract, that releases keep both dispute
  deposits in escrow, that listings cost exactly their fee, and more.
- `app/` is the on-chain program around it: account validation, reading the
  clock and balances, token transfers and lamport moves.
- `tests/` runs the library on concrete values.
