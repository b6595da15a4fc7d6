# rustecom

The verified core of a small e-commerce backend (products, categories,
discounts, carts, orders, and a generic table editor over SQLite).

- `src/` is the library, verified with Verus. It holds the service's
  rules: the discount rules and prices, the product listing's
  filters and page window, cart and checkout arithmetic (including which
  cart a checkout empties), the table editor's
  metadata, key syntax and statements, the demo catalogue, the database
  location and the log lines. UUIDs are held as their 128-bit values and
  parsed, printed and generated by the `uuid` crate behind a few trusted
  wrappers in `src/ids.rs`.
- `app/` is the HTTP server (axum, sqlx, tokio): it reads requests and the
  database, hands plain values to the library, and runs the statements the
  library plans. It also turns SQLite rows and JSON bodies into each other
  for the table editor, since those values may be floats.
- `tests/` exercises the library on concrete values.
