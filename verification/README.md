# Ambassador Fellowship governance

A verified library for the governance of the Ambassador Fellowship: emergency
response, appeals, cross-collective integration, progressive discipline, rank
transitions, conflicts of interest, on-chain remarks, governance health metrics
and professional service boundaries. Every call either succeeds, updating storage
and depositing events as its contract states, or fails with an error and leaves
everything as it was.

Layout of `src/`:

- `types.rs`: origins, the records kept in storage, events and errors.
- `scale.rs`: the SCALE encoding of records, from which their identifiers are hashed.
- `hashing.rs`: Blake2b digests (through `sp-core` and `sp-crypto-hashing`) and the
  debug rendering of a hash.
- `storage.rs`: storage maps, and the conflict-of-interest map kept in the iteration
  order of its hashed keys.
- `pallet.rs`: the configuration, the pallet state and its calls with their contracts.
- `identity.rs`: identity verification over registrars' judgements and rank checks
  over the Ambassador collective.
- `laws.rs`: properties across calls (access control, things that happen once,
  nonces, conflicts of interest).
- `weights/`: benchmarked weights of calls of other runtimes.
- `benchmark_inputs.rs`: padded inputs for benchmarking.

Verify with Verus; `tests/` holds the scenarios.
