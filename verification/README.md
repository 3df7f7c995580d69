# async_smoltcp

Sockets over the user-space TCP/IP stack of `smoltcp`, verified with Verus.

- `src/` is the library. `sockets`, `routes` and `error` state what the calls into `smoltcp`
  do, `smol_socket` also what a call into `tokio` does; everything else is proved from that.
  `laws` holds what is true over several calls.
- `app/` runs the library: the thread, the locks, the interfaces of `smoltcp` and the traits of
  `tokio`.
- `tests/` runs the library against `smoltcp`, over a loopback device.
