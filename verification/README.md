# mancer_crowdfund

A Solana crowdfunding program whose decisions are verified with Verus.

- `src/` is the verified library: instruction decoding (`instruction`), the
  account data layout (`state`), program addresses and keys (`address`), what
  each instruction checks and does (`processor`, as a `Plan` of system program
  calls and account writes), the properties of one instruction (`laws`), and
  those that hold across any sequence of instructions over the stored
  accounts (`history`): a campaign is created once, paid out at most once,
  never both paid out and refunded, each donor is refunded at most once, and
  the campaign's total stays the sum of its donors' records.
- `app/` is the on-chain entrypoint: it reads the accounts and sysvars, asks
  the library for the plan, and performs it with cross-program invocations.
- `tests/` runs the library on concrete campaigns.
