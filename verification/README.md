# lighter_rs

SDK core for the Lighter Protocol, verified with Verus.

- `src/` is the verified library: protocol constants and errors; order
  transactions with their validation, Poseidon2 hashing and signing
  (`types`, `client`); the framing of the HTTP API requests; and the state
  kept from the WebSocket streams (`ws_client`), with the wire encodings
  they need (`text`).
- `app/` holds the network side: the HTTP client, the WebSocket message
  loop, the JSON encodings of the transaction types and the error type that
  carries the network libraries' errors.
- `tests/` runs the library on concrete values.

Signing keys are supplied through the `client::Signer` trait, whose
implementations say, through `signs` and `refuses`, which signatures are
their own; the contracts of the transaction client state every signature
over the transaction's hash through them.

The transaction client covers order transactions (create, cancel, modify,
cancel all, grouped orders, and the limit, market, take-profit and
stop-loss helpers) and the leverage-update request. Transfers,
withdrawals, key changes, margin updates, sub-accounts, public pools and
shares are not part of this library.
