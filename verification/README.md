# quake

Verified logic of the Quake parametric microinsurance contract.

- `src/` — the library, verified with Verus:
  - `types.rs`, `errors.rs`, `events.rs`: policies, oracle sources, configuration, errors, events.
  - `logic.rs`: the contract's decisions as functions of the values they read
    (policy terms, cancellation, premium, staleness, trigger evaluation).
  - `encoding.rs`: the policy-id preimage (XDR / big-endian layout) and its SHA-256 digest.
    The digest comes from the `sha2` crate: on Soroban, `env.crypto().sha256` is a host
    function that only a running contract (or the test-only host) can reach, and the
    host computes it with this same `sha2::Sha256`. app/ hashes the same preimage with
    the host's call.
  - `table.rs`, `storage.rs`: a model of the contract environment (storage, ledger
    sequence, events, authorisation, token balances and the premium reserve) and the
    storage helpers over it.
  - `contract.rs`: the entry points, each specified as a step from one environment to the next.
  - `laws.rs`: properties relating several calls (initialise once, read-after-write,
    cancel-then-cancel, latest reading wins, premiums are taken from the wallet, three
    missed premiums lapse a policy, failures change nothing, stored policies stay valid, ...).
- `app/` — the Soroban contract: host storage, `require_auth`, events and ledger,
  calling the library for every decision.
- `tests/` — tests of the library.
