# rwa_token

Verified models of an ERC-3643 (T-REX) security token on Soroban, the
compliance module and identity registry it consults, and an attestation
predicate.

- `src/` is the library, verified with Verus.
  - `host.rs`: the Soroban host values the contracts hold (host vectors,
    maps, strings and byte strings), behind trusted wrappers.
  - `ledger.rs`: storage entries read with their defaults.
  - `agents.rs`: a contract's agents, kept in a host map whose values are
    all flags.
  - `compliance.rs`, `identity_registry.rs`: the compliance module (cumulative
    receive limits, zero meaning no limit) and the identity registry
    (registered investors, allowed countries, verification).
  - `token_state.rs`, `token.rs`: the token's state, the rules of transfers,
    mints and burns in the order the token checks them, and the operations,
    batches included; every refused operation leaves all states unchanged.
  - `predicate.rs`: attestation-based authorization.
  - `fixture.rs`: the three contracts deployed and wired together.
  - `laws.rs`, `supply.rs`: properties across operations, among them that
    mints, burns, transfers and recoveries keep the sum of balances equal to
    the total supply, and that a transfer to oneself is refused.
- `tests/` runs the contracts on concrete values.
- `app/` is the host side: the contracts' errors and events as the host knows
  them, and a session that maps host addresses to accounts, checks
  authorization and publishes events around the verified operations.
