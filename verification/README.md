# luckyplus

A lottery registry. An account creates a lottery (optionally putting in a
bonus), other accounts invest in it until its expiry block, and at that block
every lottery that expires there is marked a success.

- `src/` is the verified library: the storage model (`store.rs`, `model.rs`),
  the registry and its calls (`registry.rs`), the laws that every call keeps
  (`laws.rs`), and the calls into outside crates (`outside.rs`: SCALE encoding,
  BLAKE2b, random numbers).
- `app/` is the runtime glue: it reads the block number and the random seed,
  reserves funds through a balances module, and collects the events.
- Calls that reserve funds come in two steps: the library checks and answers
  with a pending request, the runtime reserves the funds, and the library's
  `finish_*` call records the outcome.
