# xrp_watcher

Follows the five-minute "XRP up or down" markets of Polymarket: it finds the
market of the current window, follows the trade prices of its two tokens over
the CLOB websocket, preloads the market of the next window shortly before the
current one ends, and, when a market ends, settles its result and stores it in
PostgreSQL.

- `src/` is the verified library (Verus): window arithmetic and slugs
  (`utils::time`), the market slots (`models::buffer`), reading the token pair
  of a market and the lookup retries (`api::gamma`), price addresses and the
  order of the price lookups (`api::clob`), reading a market's resolution and
  deciding its result (`api::resolve`), reading trades off the feed, pairing
  prices and deciding when the feed stops (`api::ws`), and the decisions of each
  round of the watcher (`cycle`).
- `app/` is the program around it: network and database I/O, the async tasks,
  and the market record, whose prices are floating point.
- `tests/` runs the library on concrete values.
