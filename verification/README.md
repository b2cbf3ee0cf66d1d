# btc_ticker

A menu-bar ticker for the OKX `BTC-USDT-SWAP` perpetual: it follows the
exchange's WebSocket tickers channel and funding-rate API, optionally through
an HTTP proxy, and shows the price and the day's change in the tray.

`src/` is the verified library (Verus):

- `decimal` — unsigned decimal text: parsing with the rules of Rust's unsigned
  `from_str`, printing without leading zeros, and their round trip.
- `text` — text equality, search for a run of characters or bytes, and
  `str::trim`-style white-space trimming.
- `url_target` — the host and port of a server URL, read with the `url` crate.
- `proxy` — the shared proxy-address store, reading `host:port`, the HTTP
  client's proxy URL, and the CONNECT tunnel to the WebSocket server.
- `feed` — what the feed does with WebSocket messages and the funding-rate answer.
- `tray` — the tray's title, menu, Dock switch and proxy dialog.

`app/` is the Tauri application around it: windows, tray, network, files, and
the floating-point prices.
