# bsproxy

The decision logic of a multi-protocol tunnelling proxy (SSH, SOCKS5, TLS,
WebSocket, XHTTP and plain HTTP on one port), with its contracts proved by
Verus.

- `src/` is the verified library: protocol sniffing (`protocol`), connection
  routing (`routing`), the SOCKS5 handshake as a state machine (`socks5`), the
  WebSocket opening handshake (`websocket`), per-address connection limits
  (`security`), the configuration and its backend table (`config`), the XHTTP
  routes (`xhttp`) and command-line options (`cli`). The standard-library and
  outside-crate calls that the logic makes stand behind the trusted items in
  `unicode`, `digest` and `security`.
- `app/` is the program around it: sockets, TLS, the HTTP server, the
  configuration file and the command line.
- `tests/` runs the library on concrete values.
