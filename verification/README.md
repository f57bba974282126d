# polaris

The on-chain core of Polaris, an autonomous yield agent for Stellar, as a
library verified with Verus.

- `src/` holds each contract as a state machine over plain values. Each
  step's contract states its result, each refusal and when it comes, the new
  state, and the transfers and calls into other contracts that carry it out,
  in order; proof functions (`law_*`) state the properties that relate
  several operations. Who must sign is stated for the Blend pool's
  submissions; the other authorizations and the events are left to the
  contracts in `app/`:
  - `auth`: the agent's delegation registry (user delegations, the admin's
    protocol whitelist, the admin and agent roles);
  - `vault`: user deposits and withdrawals, and the agent's moves of the
    vault's liquidity into whitelisted pools and adapters;
  - `mock_pool`, `mock_phoenix_pool`, `mock_blend_pool`: the pools the vault
    and adapters talk to (recorded liquidity, fee-based stable swaps with
    slippage and spread limits, lending with simple interest);
  - `blend_adapter`, `phoenix_adapter`: the protocol adapters;
  - `zk_verifier`: the Groth16 verifier: the key, the check that every
    encoding is a point the ledger host accepts, and the multi-scalar
    multiplication and pairing check, run by the host through trusted
    wrappers of `soroban-sdk` whose results are named;
  - `address`, `table`, `arith`: addresses as byte strings, finite keyed
    tables, and 128-bit saturating arithmetic.
- `app/` holds the Soroban contracts: they keep the state in ledger storage,
  let the library decide each call, require the authorizations, carry out
  the transfers and calls the library returns, and publish the events.
- `tests/` runs the library against real Stellar Asset Contract tokens on a
  test ledger.
