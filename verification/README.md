# astock

An A-share trading assistant: quotes, K-lines, technical indicators, strategy
back tests, a trade journal with positions, alerts and a receiver for data that
a browser extension pushes.

`src/` is the library, written in Verus: stock codes, the replies of the quote
and data services, decimal arithmetic, trading costs, the back-test engine and
its strategies, the indicator report, positions and their profit, the store's
rows, the monitor's decisions and the receiver's requests, each with its
contract. Calls into `rust_decimal`, `chrono` and `encoding_rs` stand behind
small trusted wrappers whose contracts say what those crates do.

`app/` is the `astock` command around it: the command line (clap), HTTP
(reqwest, axum), the SQLite store (rusqlite), the tables (comfy-table), the
floating-point indicators (ta), the monitor loop and desktop notifications.

`tests/` runs the library on concrete values.
