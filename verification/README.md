# xor

A UDP relay between a local client and a remote peer. Each datagram is
either XOR-ed with a one-byte token (`-s xor -t 0xFF`) or framed behind a
fixed DNS query for the NS records of `root-servers.net` (`-s dnspad` on
one end, `-s dnsunpad` on the other).

```console
xor -l127.0.0.1:51820 -m1492 -o2 -r place.holder.local.arpa:65535 -t0xFF
xor -l[::]:65535 -m1492 -o2 -r127.0.0.1:51820 -t0xFF
```

## Layout

- `src/` is the library, verified with Verus:
  - `xor.rs`: XOR of a packet prefix;
  - `methods/`: the DNS frame, padding and unpadding, the XOR transform,
    the choice of transform by method and side, and the write-once cells
    for the method and the token;
  - `buf_pool.rs` and `slots.rs`: the books of the slab of buffers, its
    free list, each thread's cache of free slots (an `arrayvec::ArrayVec`),
    and the proof that every slot is in exactly one place;
  - `local.rs`, `recv_send.rs`, `shutdown.rs`, `socket.rs`: the client
    session (who is connected, when it was last seen, the watchdog's
    decision) and which packets are forwarded;
  - `config.rs`: the checks of the command line.
- `tests/` exercises the library.
- `app/` is the program: argument parsing, sockets, the tokio runtime,
  the watchdog thread, the aligned allocation of the slab, locks and
  logging.
