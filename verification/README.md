# Merge bot

Merge arbitrage on BTC five-minute binary markets. Both sides of a market, Up and Down, are bought
at different times, each when it is cheap. One Up and one Down share are merged for one dollar, so
that a pair that cost less is a profit.

- `src/` is the library. Its decisions and calculations are verified with Verus: contracts state
  what each function returns or changes, and public proof functions state the laws that hold across
  functions.
- `app/` is the program around it: the command line, the feeds, the HTTP requests, and what is
  computed in floating point.
- `tests/` runs the library.

## Modules

| Module | What it holds |
|--------|---------------|
| `decimal` | Decimal numbers, with the arithmetic of `rust_decimal` |
| `types` | Sides, markets, order books, orders, positions |
| `config` | Configuration from arguments and credentials |
| `risk` | Limits on orders, exposure and losses |
| `merge` | Positions, merges, profit and loss, window reports |
| `orders` | Placing, cancelling and filling limit orders |
| `pricing` | Fair values, price samples, sizing |
| `rules` | What to bid, and when to buy |
| `strategy` | The decisions of a tick and of the end of a window |
| `window` | The run of the strategy through a window, step by step |
| `session` | What follows a window, simulated windows and markets, the final report |
| `market`, `json` | Windows, slugs, and the answers of the market APIs |
| `feeds` | Price and order book feeds |
| `clock`, `text` | The current time, and text |

Numbers that no decimal holds are errors: functions that compute amounts return `ArithmeticError`
instead of a result.

## Running

By default nothing real is traded: feeds and order matching are simulated.

```
merge-bot --max-windows 3
merge-bot --live --capital 215
```

Live mode needs `POLYMARKET_API_KEY`, `POLYMARKET_API_SECRET`, `POLYMARKET_PASSPHRASE` and
`POLYGON_PRIVATE_KEY` in the environment or in `.env`.
