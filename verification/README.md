# carbon_ledger

Verified state machines of the CarbonLedger contracts: carbon-credit
issuance and retirement, a credit marketplace, a price and monitoring oracle,
and a project registry.

- `src/` is the library, verified with Verus. Each contract is a struct whose
  view is an abstract state; every entry point's `ensures` gives the exact
  resulting state (or error, with the state unchanged) through a spec
  function named `<operation>_result`.
  - `credit.rs`, `marketplace.rs`, `oracle.rs`, `registry.rs`: the contracts.
  - `credit_laws.rs`, `market_laws.rs`, `oracle_laws.rs`, `registry_laws.rs`:
    properties over all operations (supply conservation, disjoint serial
    ranges, fee conservation, nonce replay protection, timelocks, multisig
    thresholds, ...), stated as proof functions.
  - `serial_index.rs` (sorted disjoint serial ranges with binary search),
    `history.rs` (bounded upgrade history), `table.rs` (keyed storage),
    `common.rs` (shared helpers).
- `tests/` exercises the library on concrete values.
- `app/` drives the library on the Soroban host: ledger time, authorisation,
  ed25519 signature checks, token transfers, calls between the contracts,
  events and code upgrades.

Ledger time and sequence are explicit arguments of the entry points; a
failed call leaves the state as it was, as a failed transaction does on the
host.
