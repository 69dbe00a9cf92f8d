# tcpmig

The decisions of a TCP peer that can hand live connections to another backend,
verified with Verus.

* `src/address.rs`, `src/frame.rs`, `src/buffer.rs`, `src/fail.rs`: addresses,
  headers, buffers and errors.
* `src/table.rs`: a hash table whose view is a map.
* `src/tcp/peer.rs`: the socket table, and where each segment goes.
* `src/tcp/state.rs`: the state of a connection and its bytes.
* `src/tcp/laws.rs`: what holds of the socket table across operations.
* `src/tcpmig/`: the migration protocol of one backend.
* `app/`: a driver that makes the calls into sockets, runtime and wire.

The library trusts three things that it does not prove. Of `rand`
(`src/tcp/random.rs`) it claims that a nonce depends on the seed and on how many
came before. Of the channel of `futures` (`src/tcp/channel.rs`) and of one error
number of `libc` (`src/fail.rs`) it claims nothing.
