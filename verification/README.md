# cacao

A family allowance manager. A giver (parent) device and baby (child) devices keep wallets,
spending requests, recurring allowances and a ledger of transactions, and sync over the
local network without a server.

## Layout

- `src/` — the library, verified with Verus. Every operation is a function that decides,
  from what the store holds, whether the operation is allowed and what must be written:
  - `models/` — the records (profiles, families, wallets, requests, allowances,
    transactions, notifications) and the parameters of the operations;
  - `services/` — setup, families, wallets, the request state machine
    (draft → pending → approved / rejected, cancellation), allowances and their schedule,
    manual transactions and monthly summaries, PINs, pairing codes, CSV export;
  - `sync/` — which pushed changes the giver takes (the giver wins ties, transactions are
    append-only), the statements that write changes, the wallets whose balances a pull
    touches and their balances recomputed from the ledger, discovery, the HTTP addresses,
    the sync status and the steps of a sync cycle (`sync_step`: from what happened to the
    next action);
  - `time.rs`, `text.rs`, `payload.rs`, `error.rs` — the calendar, text helpers, JSON
    payloads and the error type.
- `tests/` — tests of the library.
- `app/` — the running app: the SQLite store (sqlx), the HTTP sync server (axum) and
  client (reqwest), mDNS discovery (mdns-sd) and the allowance scheduler (tokio). It runs
  the sync cycle by performing each action that `sync_step` gives and handing back what
  happened.

Outside crates are reached from `src/` only through a few functions whose contracts are
trusted: chrono (time arithmetic and RFC 3339), argon2 (PIN hashing), rand (pairing
codes), serde_json (payloads) and urlencoding (pull addresses).
