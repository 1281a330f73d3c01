# posthog_rs

A blocking PostHog client whose decisions are verified with Verus.

- `src/` is the verified library:
  - `batching`: the background worker as a state machine. Each call to
    `Batcher::step` takes what the worker observed (a new cycle, an event, a
    timeout, a disconnect) and returns what to do next (wait, send a batch,
    start again, send the last batch, stop). Its contract is exact, given by
    `step_spec`.
  - `delivery`: laws about the worker. No event is lost or sent twice, and
    events keep their order. Batches hold between 1 and `flush_at` events.
    A full batch goes out at once. A wait never runs past the cycle's
    deadline. A disconnect flushes what is left.
  - `queue`: the capture side of the channel to the worker (`capture`,
    `capture_batch`, `close`).
  - `options`, `error`: the client options with their defaults and builder
    (batching, queue size), and the error type.
- `app/` is the client around it: the worker thread, the loop that drives
  `Batcher::step`, JSON encoding and the HTTP transport.
- `tests/` run the library on concrete inputs.
