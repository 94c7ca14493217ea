# stellar_grants

The rules of a milestone-based grants contract on Stellar (Soroban), written
in Verus and proved against their contracts.

- `src/` is the verified library. Every operation takes the records the
  ledger holds (grants, lockups, proposals, timers, relay state, splits,
  release conditions) as plain values, together with the ledger's time and
  sequence and the caller, and returns the records to store or an error.
  Addresses are held as the numbers under which the contract registers them.
- `app/` is the ledger-facing side: it authenticates callers, reads and
  writes Soroban storage, asks oracles and other contracts for the values a
  release condition depends on, moves tokens, and converts between ledger
  values and the library's plain values.
- `tests/` runs the library on concrete values.
