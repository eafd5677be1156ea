# wasm_thread

Threads for the wasm32 target, in the shape of `std::thread`, built on Web Workers.

- `src/` is the verified library (Verus). It holds the thread configuration
  (`Builder`), the worker entry script (placeholder substitution and the
  once-made script URL), the choice of where a spawn is carried out (the main
  thread starts every worker), the answer to messages from workers, the join
  handles and their outcomes, the count of a scope's running threads, and the decisions of `scope`.
- `app/` is the browser side: it starts Web Workers, passes messages between
  them, and offers `spawn`, `scope`, `Builder::spawn` (through `BuilderExt`) and
  the waiting joins `join_blocking` and `join_async` (through `JoinHandleExt` and
  `ScopedJoinHandleExt`), following the decisions of `src/`. A handle's own
  `join` completes a join from what arrived on the thread's channel.
  These methods are trait methods, since they cannot be added to the library's
  types from outside it: import `BuilderExt` and `JoinHandleExt` with the crate.
  Only classic (non-module) workers are started.
