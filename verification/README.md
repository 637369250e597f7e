# sqlx_odbc

An ODBC driver for SQLx whose decisions are verified with Verus.

- `src/` is the verified library: connection-string normalization, fetch settings, the SQL
  type model and its names, type compatibility of Rust types, the parameter plan of every
  argument, the buffers of a buffered fetch, the conversion of fetched cells into values, the
  assembly of column batches into rows, column lookup by index and by name, value decoding
  (integers, booleans, text, bytes, dates and times, decimals, UUIDs), the `Any` driver's type
  mapping, and the transaction state machine. Calls into `chrono`, `uuid`, `bigdecimal` and a
  few `std` functions stand behind small trusted wrappers whose contracts say what those
  functions return.
- `tests/` exercises the library on concrete values.
- `app/` performs the ODBC calls through `odbc-api` and implements the `sqlx-core` traits
  (`Database`, `Connection`, `Executor`, `Row`, `Type`, `Encode`, `Decode`, the `Any` driver)
  on top of the library. Floating point values, which the library holds by their bits, are read
  there.
