# raft_cluster

The decision logic of a small Raft-style key/value cluster, verified with Verus.

- `src/log.rs`: operations and the operation log.
- `src/model.rs`: roles, peers, the node and its view as plain values.
- `src/effect.rs`: the messages and timers a handler asks its runtime for.
- `src/election.rs`, `src/heartbeat.rs`, `src/bootstrap.rs`, `src/node.rs`,
  `src/ops.rs`: one handler per message a node receives, each with a spec
  function that states the next state and the effects.
- `src/client.rs`: the client's handlers.
- `src/laws.rs`: properties that span handlers (terms never go down, one
  candidate per term, leadership only by a quorum, ...).
- `src/random.rs`: the one call into `rand`.
- `app/`: the actix actors that run the handlers and carry out their effects.
