# reprise_p2p

Peer-to-peer connections through NAT, with the help of a rendezvous server. The rules of the
protocol are verified with Verus; sockets, clocks and tasks are ordinary Rust around them.

- `src/udp`: the datagrams, the state of each peer, the decisions of a client's poll, hole punching,
  and the identity check of QUIC.
- `src/server`: the matching of UDP requests, and the services known to the TCP server.
- `src/tcp`: the messages and the flow of the two sides that meet over TCP.
- `src/meeting.rs`: what clients and the server achieve together.
- `src/interfaces.rs`, `src/clock.rs`, `src/config.rs`: the choice of the network interface, the
  check of the system clock, the configuration.
- `src/keys.rs`, `src/net.rs`, `src/time.rs`, `src/wire.rs`, `src/text.rs`: keys, addresses, time,
  bytes, and numbers in words.
- `src/outside.rs`: the calls into other crates, and what is taken on trust of them.
- `app`: the application around the library. Time is handed to the library as an argument, and each
  decision comes back as an action to perform.
- `tests`: the library with the real crates linked.
