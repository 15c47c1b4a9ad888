# grainlify

Verified core of the Grainlify bounty-escrow Soroban contracts.

- `src/error_recovery.rs` — the circuit breaker guarding escrow operations:
  failure counting and logging, opening at a threshold, admin resets through
  half-open, success counting, admin hand-over, and the events each step
  publishes.
- `src/analytics.rs` — per-bounty analytics with checked accumulators.
- `src/multisig.rs` — the upgrade multisig: proposals bound to an action,
  snapshots of signers and threshold, approvals, one-time execution and
  threshold-preserving signer removal.
- `src/errors.rs` — the escrow's stable error codes.

Each module keeps its state as plain values and states every operation as a
function of a mathematical model of that state; the `law_*` proof functions
state the properties that hold across operations.

`app/` is the Soroban glue: it loads that state from ledger storage,
authenticates callers, calls the library, writes the state back and
publishes the events. `tests/` exercises the library on concrete scenarios.
