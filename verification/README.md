# aykroyd

Clients for SQLite (through `async-sqlite`) and Turso (through `turso`), with the
decisions they make verified in Verus.

A client never calls its driver itself. An operation says what to ask the driver
for and on which connection, takes the reply, and says what to ask for next or what
to return:

- `src/run.rs`: running a statement, stage by stage (prepare its text, hand over
  its parameters, fetch its rows).
- `src/error.rs`: the error that an operation reports.
- `src/sqlite.rs`: the SQLite client and its transactions.
- `src/turso_db.rs`: the Turso client and its transactions.
- `src/laws.rs`: what holds of whole runs and whole transactions, for every way in
  which a driver can reply.
- `src/driver.rs`: the driver types that the clients carry, and what is trusted of
  them.

`app/` makes the calls: it holds the asynchronous clients, and the traits by which
values become parameters and rows become values.
