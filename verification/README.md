# ledgerlens-score

The decision logic of the LedgerLens score contract, verified with Verus, and
the Soroban contract around it.

- `src/` — the verified library:
  - `error.rs` — the errors a refused request is answered with;
  - `params.rs` — bounds, defaults and the validation of configuration values;
  - `auth.rs` — how a signer list is turned into required authorizations;
  - `rate_limit.rs` — the flat cooldown and the per-wallet token bucket;
  - `velocity.rs` — the per-hour score velocity cap;
  - `floor.rs` — the historical-high score floor;
  - `governance.rs` — time-locked parameter changes and upgrade proposals;
  - `contract.rs` — the contract state, the per-wallet record, and every
    operation as a transition with an exact contract;
  - `laws.rs` — properties spanning several calls (time locks, cooldown and
    velocity between accepted scores, the floor, token-bucket bursts).
- `app/` — the Soroban contract: storage, authorization, the ledger clock and
  events, and the conversions between ledger values and library values; the
  contract's rules are the library's.
- `tests/` — scenario tests of the library.
