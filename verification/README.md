# amm_video

The decisions of a constant-product AMM pool's `lock` and `swap`
instructions, written in Verus and proved against their contracts.

- `src/state.rs`: addresses, the pool's config, token accounts and mints as plain values.
- `src/lock.rs`: locking the pool (authority only, once).
- `src/swap.rs`: the checks before pricing a swap, what is handed to the
  constant-product curve, and the transfers that carry out a priced swap
  (fee split between vault and treasury, output out of the other vault).
- `src/laws.rs`: properties that span the instructions, proved.
- `app/`: the on-chain program around the library: account validation,
  the curve call, and the token transfers.
