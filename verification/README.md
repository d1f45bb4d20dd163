# modl

Public crypto market data: Bitfinex trade history as daily tables, raw websocket feeds as daily
compressed JSON lines, and the normalization of those feeds into daily tables.

`src/` is the library. It holds the decisions of the programs, with contracts that Verus proves:

- reading trades, paging through history, checkpoints behind completed days;
- the feeds of each venue, their subscriptions, heartbeats, limits and reconnects;
- the conversation with Deribit that finds instruments and follows them;
- the envelopes of recorded messages and the files that hold them;
- the rows that Deribit, Bitfinex, Hibachi and Hyperliquid messages become, and their tables;
- the plan for a day that is normalized;
- the menu of the recorder.

Numbers of prices and amounts are kept as the text in which a venue sent them.

The library calls `serde_json`, `chrono`, `rust_decimal`, `base64` and the URL type of `reqwest`.
What it relies on in them is stated where they are called, in the doc comments of the functions
that are marked as trusted.

`app/` is ordinary Rust around the library: the command line, HTTP and websocket connections,
files, Arrow and Parquet. One binary serves as `modl`, `modl-normalize` and `modl-tui`.

`tests/` exercises the library with the crates it calls.
