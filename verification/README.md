# gofundme

A crowdfunding program for Solana: a creator opens a fundraiser with a title,
a description, a goal and a deadline; donors give lamports into the
fundraiser's vault; the creator may withdraw what the vault holds beyond its
rent-exempt minimum; once a campaign is seven days past its deadline, anyone
may have a donation refunded to its donor.

## Layout

- `src/` is the library, verified with Verus: the rules of each instruction
  as functions over plain account values, with their contracts.
  - `state.rs`: keys, the fundraiser and donation accounts, transfers.
  - `constants.rs`, `errors.rs`: the limits and the errors with their codes.
  - `instructions/`: one file per instruction. An instruction checks its
    inputs and returns the lamport transfer it needs; `donate` books the gift
    with `record_donation` once that transfer is made.
  - `pda.rs`: the seeds of the program's account addresses and their
    derivation.
  - `lifecycle.rs`: properties that span instructions (totals are sums of
    gifts, a reached goal ends donations, a donation is refunded at most once,
    donations and refunds never overlap in time, an abandoned vault repays
    every donor, ...).
- `app/` is the on-chain program built with Anchor: it validates and loads
  the accounts, reads the clock and the rent sysvar, calls the library, makes
  the transfers and stores the accounts back.
- `tests/` runs the library on concrete scenarios.
