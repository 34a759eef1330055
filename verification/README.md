# rpc_gateway

A JSON-RPC gateway for Ethereum transactions, written in Verus.

- The **RPC server** accepts `eth_sendRawTransaction` (a signed transaction,
  stored as `Received`) and `project_transactionStatus` (the stored status of
  a transaction, looked up by hash). Two layers in front of the handler refuse
  bodies that are not JSON-RPC requests and methods the server does not answer.
- The **worker** waits for a notification (or a second), fetches the received
  transactions and marks each of them `Processed`.
- The **load generator** signs throw-away transactions with its keys and posts
  them under randomly chosen methods.

Layout:

- `src/` — the verified library: requests, responses and method validation
  (`rpc`), the stored rows (`database`), the worker's decisions (`worker`),
  the load generator's choices and requests (`spammer`), command lines
  (`args` and each program's `cli`), hexadecimal text (`hex`), text helpers
  (`text`) and JSON values (`json`). Hex text, transaction decoding, hashing,
  signer recovery, key parsing and the signing of generated transactions
  come from `alloy`, random numbers from
  `rand`, each behind a small trusted function. Where a few lines can say
  what such a call gives (hex text, the length of a hash or an address), its
  contract says it; where the answer depends on the input alone but takes a
  codec or a curve to describe (decoding, hashing, recovery, signing, which
  keys are accepted), the contract gives it a name and the library's contracts speak
  of that name; where it depends on chance (`rand`), only what holds of
  every draw is stated.
- `app/` — the three programs around the library: HTTP with `axum`/`tower`,
  Postgres, `reqwest`, logging and the environment.
  The Postgres store (`app/database.rs`) is written against `sqlx`, which
  `Cargo.toml` does not list: add `sqlx` (features `postgres` and
  `runtime-tokio`) to build the programs; the library and its tests do not
  need it.
- `tests/` — tests of the library on concrete values.
