# Pacifica connector

A connector between trading bots and the Pacifica exchange. It follows market data, keeps the book
of the bots' own orders and the positions of the account, and signs and sends trading commands.

- `src/` is the verified library: what the connector decides and computes. Every function states
  what it does in `requires` and `ensures`, over spec functions and views, and Verus proves it.
  - `ordermanager`, `order_laws`: the book of orders, and what holds of it whatever happens to it.
  - `account_state`, `account_laws`: positions, and which private messages are out of date.
  - `private_stream`, `public_stream`: what messages of the sockets mean.
  - `trade_stream`, `command_worker`, `ws_trade`: trading commands and their answers.
  - `signing`, `order_payload`, `json`: what is signed and sent.
  - `config`, `startup`, `rest`, `msg`: settings, and the messages as data.
  - `sanity`, `sanity_run`: a guarded run against the test network.
  - `pacifica`, `connector`: the connector as a whole.
- `tests/` runs the library.
- `app/` is ordinary Rust around it: sockets, files, channels, the reading of messages into the
  library's types, and floating-point arithmetic.

Numbers that are floating-point elsewhere are carried by their bits (`binary64`). Sums, quotients
and printed numbers are computed by the caller and handed in, as values or as functions.

A handful of functions call other crates (`serde_json`, `bs58`, `ed25519-dalek`, `rand`, `chrono`).
Each is marked `external_body`, and its comment says what is claimed of the call.
