# pg_proto

PostgreSQL wire protocol 3.x for clients, servers and intermediaries, verified with Verus.

- `src/` is the library: codecs, protocol grammars, the pipeline ledger, SCRAM,
  cancellation registries, client establishment and intermediary forwarding. It performs
  no I/O; every operation takes a message or an event and returns what to do next.
- `app/` drives the library over tokio transports.
- `tests/` runs the library on concrete exchanges.

Functions whose names begin with `law_` state what holds of the library as a whole.
What is relied on of other crates is declared in `src/octets.rs`, `src/crypto.rs` and
`src/sasl_client.rs`.
