# qdisc_netem

A verified builder for netlink requests that add a traffic-control queueing
discipline (`RTM_NEWQDISC`): setting the handle and the parent, the
`ingress` discipline, and the `netem` network emulator with its options
framed as netlink attributes.

- `src/request.rs` — the request and its builder steps.
- `src/netem.rs` — netem options, their defaults and their attribute values.
- `src/nla.rs` — attribute framing through `netlink-packet-utils`.
- `src/bytes.rs` — integers in the machine's byte order through `byteorder`.
- `src/message.rs` — the traffic-control message as plain values.
- `src/exchange.rs` — the flags a request is sent with and how answers decide the outcome.
- `app/` — sending a request over a `netlink-proto` connection.
