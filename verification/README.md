# aerospace-net-bench

Round-trip benchmarks of transport protocols over loopback: TLS 1.3 over
TCP, plain TCP, raw UDP, and QUIC with 0-RTT session resumption, against
echo servers for each.

- `src/` is the verified library (Verus):
  - `protocol` — which measurement a client runs for its `--protocol` name;
  - `bench` — the steps of each measurement as a state machine that also
    derives the reported connection and round-trip times, the lines the
    clients print, and the 0-RTT resumption with its fallback to a full
    handshake; `bench_laws` proves what holds of whole runs;
  - `echo` — the echo servers' decisions, with proofs that only received
    bytes are sent back, in order;
  - `endpoint`, `payload` — addresses, ports and the payload;
  - `setup` — the server identity and the TLS/QUIC configurations, calling
    rcgen, rustls and quinn; `server_setup` shows that only the
    certificate generation can fail.
- The UDP service is raw, unencrypted UDP.
- `app/` is the command line (`server`, `client`, `plain-client`) and the
  asynchronous network driver.
- `tests/` exercises the library on concrete values.
