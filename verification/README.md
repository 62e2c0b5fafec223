# dpdk-io

TCP streams and listeners over the f-stack user-space network stack (DPDK).
A single network loop thread owns every socket; user threads hand it connect,
listen, accept, read and write requests over channels.

Layout:

- `src/` — the verified library (Verus):
  - `net.rs`: socket readiness flags, the meaning of system-call results,
    and the conversion of socket addresses to and from their C form.
  - `service.rs`: the registry of the network loop — how epoll events,
    connects, listens and accepts change what the loop knows and what it must
    do next — plus connect retries and the driver's start-up arguments.
  - `tcp.rs`: the decisions of read polls, accept polls and timed connects.
  - `laws.rs`: properties of the registry and the connect retries that hold
    across operations.
- `app/` — the runtime: the f-stack calls, the loop thread, the request
  channels and the tokio `AsyncRead`/`AsyncWrite` stream types.
- `tests/` — tests of the library.
