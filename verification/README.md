# curve_protocol

The rules of a deposit protocol on a token program, verified with Verus.

- `src/` is the library: the state accounts (`state`), the account relations
  each instruction declares (`accounts`), the instructions as functions from
  accounts, state and clock time to new state, events and token transfers
  (`admin`, `funding`, `quote`, `absorb`, `graduation`), and the properties
  that span instructions (`laws`).
- `app/` is the on-chain program: it reads accounts and the clock, calls the
  library, performs the token transfers the library asks for, writes the
  accounts and emits the events.
- `tests/` runs the library on concrete values.
