# libvirt-remote

A client for the libvirt RPC protocol, and a small `virsh`-like command line
tool built on it, with the protocol logic verified by Verus.

`src/` is the verified library:

- `wire`, `protocol`, `packet`: the XDR encoding of message headers and
  stream holes, packet framing (length word, header, payload) and the sorting
  of a received body by its header, with read-back laws.
- `registry`: the calls in flight, where a received packet is routed, and
  serial numbers.
- `binding`, `procedure`: the records of the remote program and its procedure
  numbers.
- `naming`, `codegen`: the decisions of the client generator (method names,
  argument and reply records, event messages and their order, method shapes).
- `table_view`, `kv_view`, `util`, `text`: text tables and key-value lists
  whose columns line up.
- `args`, `connect`, `locale`, `cmd`: the decisions of the command line tool.

`app/` holds what cannot be verified: sockets and threads, the serde
encoding of the records, argument parsing with clap, messages with fluent,
the syn/quote part of the generator, and `main`.
