# etcd-client

The decisions of a failover-capable etcd v3 client, written and proved in Verus,
and the asynchronous client around them.

- `src/` is the library. It decides which errors may be retried (`failover`,
  `status`), how an RPC's attempts go on (`retry`, `caller`), how credentials become
  a token (`session`), how URLs and options become endpoints (`endpoint`, `client`),
  and how broken watch and lease streams are resumed (`rpc`). Each function states
  its behaviour in its contract; the `law_` functions state what holds across calls.
- `app/` is the client around the library: channels, timers, tasks and protobuf
  messages. It performs what the library decides and reports back what happened.
- `tests/` runs the library on concrete values, together with the crates it calls.
