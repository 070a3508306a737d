# senshi

The rules of the Senshi fantasy validator league, a Solana program in which
players stake into per-validator seasons, verified with Verus.

- `src/` is the verified library: instruction decoding (`instruction`), the
  byte layouts of the config, season and entry accounts (`state`, `codec`),
  program-derived addresses (`pda`), one processor per instruction that
  answers with the cross-program invocations to perform and then either the
  account data to write or the error that follows them
  (`instruction/*`, `processor`), and properties of the program as a
  whole (`laws`).
- `app/` is the on-chain entrypoint: it copies the runtime's accounts into
  plain values, reads the clock and rent sysvars, runs the processor, performs
  the invocations with `pinocchio-system` and `pinocchio-token`, and writes the
  new data back.
- `tests/` exercise the layouts and every instruction on concrete accounts.

Season lifecycle: `Open -> Locked -> Scoring -> Settled`.

No instruction assigns an entry's reward (`has_reward`, `reward`): a claim
succeeds only on an entry whose reward was set by other means, and is
otherwise refused with `NoReward`.
