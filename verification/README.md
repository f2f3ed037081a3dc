# ares_trade

The order model and engine rules of the Ares trading engine, verified with Verus.

- `src/kinds.rs`: order side, order type, time in force and order status, with their stored
  names (`as_str`) and the case-insensitive reading of names (`from_str`).
- `src/decimal.rs`: exact decimal amounts (mantissa and scale) for quantities and prices.
- `src/db.rs`: the connection configuration read from a database URL, orders, the reading of a stored row into an order, the parameters of the
  statement that inserts a new order, and what lookups and status updates return.
- `src/engine.rs`: the engine's errors, the validation of new orders, the status rule for
  confirmations, the order cache kept in front of the database, and the engine's operations
  (read, submit, confirm) as steps that each say which database work comes next.
- `app/`: the program: the PostgreSQL pool and statements, and the asynchronous engine that
  performs the database work each step asks for and hands the answer back to the library.
