# argent_core

Collateral-control, settlement and rewards ledgers for gold-backed credit,
written in Verus and proved against their specifications.

## Layout

- `src/` — the verified library.
  - `primitives.rs` — 32-byte ids and party keys.
  - `table.rs` — a finite map kept as a list of distinct-key entries, viewed as
    a `Map`; snapshot and restore of its entries.
  - `credit_ledger/` — frameworks, positions, bar-set locks, pledges, credit
    lines, drawdowns and repayments, collateral adjustments, release, default
    and enforcement, revaluation and margin, enforcement readiness. Each
    operation is specified by a `step_*` function over the ghost model
    `LedgerState`. `books.rs` states the collateral invariant (bar-set
    locks mirror the positions that hold bars, one pledge per position, one
    line per pledge) and the lemmas for each kind of change to the books;
    `laws.rs` proves, over every operation, that the invariant is kept (no
    double pledge), that records of references are never forgotten, that
    each accepted operation publishes the next event of its framework, and
    line accounting; and, for single calls, what a reversal undoes and what a
    repayment or revaluation never touches.
    Where an operation's arithmetic could leave the i128 range, it
    requires the bound only on the path that reaches the arithmetic, and a
    verified `*_in_range` predicate tests exactly that condition.
  - `settlement_vault.rs` — the vault's checks of a repayment against the
    credit line and the settlement-asset transfer they name.
  - `rewards_ledger/` — sponsor campaigns, eligible spend, claims, vouchers,
    redemptions into gold, with the accounting invariant `valid()` kept by
    every operation; `laws.rs` proves, over every operation, that no campaign
    budget is over-committed, and the per-call laws on rewards.
- `tests/` — scenario suites for each ledger run against an in-process host,
  and concrete instances of the laws and formulas (`properties.rs`).
- `app/` — Soroban contracts around the library: signatures
  (`require_auth`), storage of each ledger's state, the ledger clock, event
  publication, the token transfer and the cross-contract calls of a
  settlement.
