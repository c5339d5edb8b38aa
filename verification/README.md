# fog_ingest

The decisions of a fog ingest server's background workers, and the
configuration of its client, verified with [Verus](https://github.com/verus-lang/verus).

A worker performs nothing itself. It names a request, the thread that drives it
carries the request out and hands the reply back, and the worker says what to
log and how long to sleep before its next request.

- `src/protocol.rs`: the ingest worker's requests and replies, and what lies
  between them.
- `src/ingest_worker.rs`: the ingest worker, which polls for new blocks and has
  them processed.
- `src/timestamp.rs`: the query for a block's timestamp, which the ingest
  worker makes, and what holds of its runs.
- `src/not_found.rs`: how long a block has been missing.
- `src/ingest_laws.rs`: what holds of every run of the ingest worker.
- `src/peer_checkup.rs`: the peer checkup worker, and what holds of its runs.
- `src/thread_handle.rs`: taking a worker's thread down.
- `src/log.rs`: the lines that the workers log.
- `src/time.rs`, `src/decimal.rs`: spans of time, and decimal notation.
- `src/config.rs`: the client's configuration.
- `app/`: the threads, and the client's command line.

One item is believed without proof: the call of `u64::from_str` in
`src/decimal.rs`.
