# proxifier-rs

A proxy client library: SOCKS4, SOCKS5 (no authentication or
username/password; IPv4, IPv6 and domain destinations), HTTP connect-ip and
HTTPS CONNECT tunnels.

- `src/` is the verified library. It builds every packet a client sends to a
  proxy and decides, from every reply, what the client does next:
  `socks4` (request and reply), `socks5` (a handshake state machine and the
  laws it keeps), `http` and `https` (tunnel requests), `response` (collecting
  and judging an HTTP proxy's response), `status` (the status line rule
  behind `is_ok_status`).
- `app/` opens the sockets with `tokio`, runs the handshakes of the library
  over them, and wraps tunnels in TLS with `tokio-rustls`.
