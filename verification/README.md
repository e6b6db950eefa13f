# chanix

An event pipeline: producers send input events into a channel, an
aggregator folds each event into a running state with the logic of the
first producer that claims it, and every result is fanned out to the
subscribed consumers.

- `src/` is the verified library: the aggregator and its routing, the
  pipeline's configuration and lifecycle, and the decisions that the
  pipeline's, the consumers' and the producers' worker loops take on each
  event.
- `app/` is the runtime around it: channels, worker threads, the loops that
  wait for events and hand them to the library, and printing.
- `tests/` drives the library directly, without threads.
