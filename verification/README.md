# polymarket_arbitrage_bot

A pre-order arbitrage bot for Polymarket's 15-minute Up/Down crypto markets
(BTC, ETH, SOL, XRP), with its decision logic verified by Verus.

Before each 15-minute period the bot places limit buys on both the Up and the
Down token of the next market; a pair bought below a dollar pays a dollar per
share at resolution, whichever side wins. Around that it manages the risks:
a placement signal read from the current market, inventory skew and Kelly
sizing, a kill switch on the Binance spot price, selling the losing leg late
in the period, protecting a lone filled leg, and settling resolved markets.

## Layout

- `src/` — the verified library. Every quantity is a fixed-point integer in
  millionths (`units`). The modules hold the configuration (`config`), order
  state (`state`), the placement signal (`signals`), sizing and the kill
  switch (`risk`), the per-tick decisions (`processor`), settlement and the
  profit ledger (`closure`, `strategy`), market discovery and slugs
  (`discovery`), the spot-price book (`oracle`), the hedger, the advisory
  model's prompt (`ai`), the first strategy version's decisions (`legacy`),
  the redeem-only mode (`redeem`), string and decimal helpers (`text`,
  `decimal`, `keyed`), and the properties that span functions (`laws`).
- `app/` — the program around it: command line, logging, the JSON
  configuration file, HTTP and websocket clients, and the loops that ask the
  library what to do and do it (`runner`, `legacy_runner`).
- `tests/` — tests of the library on concrete values.

## Running

```bash
polymarket_arbitrage_bot --config config.json          # trade (or simulate)
polymarket_arbitrage_bot --redeem [--condition-id 0x…] # redeem resolved positions
polymarket_arbitrage_bot --legacy                      # first strategy version
```

Signed order placement needs the authenticated CLOB client, which this tree
does not include; set `strategy.simulation_mode` to run against live prices
without placing orders.
