# rust_socks

A SOCKS5 (RFC 1928) proxy library with username/password authentication
(RFC 1929), verified with Verus, and a `socks5` command-line tool around it.

## Layout

- `src/` — the verified library.
  - `protocol.rs`: methods, commands, reply codes, statuses, addresses, and
    their byte values.
  - `message.rs`: every SOCKS5 message as an encoder and a byte-level parser.
    A parser answers `NeedMore(k)` while its buffer is shorter than the `k`
    bytes its next decision needs, so that a stream reader asks for exactly
    the bytes the message still lacks.
  - `wire_laws.rs`: parse-after-encode, encode-after-parse, and stream laws of
    the formats.
  - `auth.rs`: the credential stores (no authentication, username/password,
    several methods) and the client's credentials.
  - `server.rs`, `client.rs`: the decisions of each side during a handshake.
  - `session.rs`: the handshake of one connection on each side as a state
    machine, with its safety laws.
  - `config.rs`: the server's configuration, its checks and choices.
  - `error.rs`: the error type and its reply codes.
- `app/` — the `socks5` program: sockets, async I/O, the authenticator trait,
  TOML files, logging and the command line.
- `tests/` — tests of the library.
