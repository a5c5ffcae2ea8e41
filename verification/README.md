# kimojio

The logic of a thread-per-core asynchronous runtime, verified with Verus: its scheduler,
waits and events, I/O bookkeeping, virtual clock, streams, drivers and requests.

- `src/` is the library. It decides what happens next and never calls the kernel: each
  decision is a function from a state and what happened to the next state and what to do.
  The state of a thread, `TaskState`, has a model, `StateView`, and every operation says
  what it makes of the model.
- `app/` performs what the library decides: it holds the futures, enters the rings, opens
  sockets, and calls OpenSSL.
- `tests/` drives the library with futures over a simulated kernel, and with real
  descriptors.

What is not proved is what the few functions in `src/outside.rs` and one in `src/text.rs`
say of other crates and of the standard library.
