# interprocess_converse

Sends serde-compatible messages between processes over local sockets, and
receives replies to them.

- `src/` is verified with Verus: the `Error` type of a connection and its
  conversion from the errors of `async_io_converse` (`src/error.rs`), and the
  construction of socket names (`src/socket_name.rs`).
- `app/` holds the asynchronous connection types (`LocalSocketListener`,
  `LocalSocketStream`, `OwnedReadHalf`, `OwnedWriteHalf`) and
  `generate_socket_name`, which run on tokio and `interprocess`.
- `tests/` exercises the verified functions on concrete values.
