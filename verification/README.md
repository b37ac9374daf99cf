# raftkv

A key-value store node on the SurrealKV storage engine, with the pieces
of a Raft-replicated store (log storage, snapshots, transport rules), full
and incremental (delta) snapshots and background merging of the delta chain.

- `src/` is the verified library: the state machine and its log, snapshot
  envelopes and delta codecs, the snapshot chain and merge policy, merge
  retries and cleanup selection, configuration validation, metrics samples,
  HTTP response bodies and the retry and chunking rules of the RPC transport.
  Functions carry `requires`/`ensures` contracts proved by Verus, except
  those that only read a clock (`clock::now_secs`, `RequestTimer`) or a
  shared atomic flag (`ShutdownSignal`), of which nothing can be promised.
  The laws that relate several functions are public proof functions named
  `law_*` or `lemma_*`.
- `app/` is the process around it: command line and configuration file,
  the storage engine, files and archives, the HTTP server, the Prometheus
  exporter and the merge task. The process runs one node on its own: it
  applies writes directly, without a consensus runtime or an RPC server, so
  the replicated-log, transport and snapshot-transfer parts of the library
  are not driven by it.
- `tests/` exercises the library on concrete values.
