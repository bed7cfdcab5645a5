# chibi_protocol_stack

A tiny IPv4 protocol stack that runs on a TUN device: it answers ICMP echo
requests, receives UDP datagrams, and opens, acknowledges and closes TCP
connections on one port.

- `src/` is the library, verified with Verus: byte order and the Internet
  checksum (`util`), IPv4 headers and packets (`ip::header`, `ip::packet`),
  ICMP, UDP and TCP (`ip::payload`), the server side of the TCP state
  machine and its connection pool (`ip::payload::tcp`), and the decisions of
  the device's receiving side (`device::tun`).
- `app/` is the program: it creates the TUN device, reads and writes frames
  on worker threads, and hands each frame to the library.
- `tests/` runs the library on concrete frames.
