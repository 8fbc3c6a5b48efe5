# karukan

Parts of a Japanese input method, verified with Verus: the katakana rewriter
and the asynchronous conversion of the engine.

- `src/kana.rs`, `src/half_katakana.rs`: kana classes, width conversion, and
  the full-width and half-width katakana variants of a candidate.
- `src/candidates.rs`, `src/preedit.rs`: candidates, the candidate list, and
  the preedit text.
- `src/conversion.rs`, `src/job.rs`: conversion requests, the queries they put
  to the models, and the completions that come of the replies.
- `src/worker.rs`, `src/runtime.rs`: the state shared with the worker thread,
  and the models it owns.
- `src/engine.rs`, `src/completion.rs`: which completions the engine accepts,
  and what it shows for them.
- `src/init.rs`, `src/assets.rs`: initialization of models, dictionaries and
  learning cache.
- `src/worker_laws.rs`, `src/engine_laws.rs`: what holds over several calls.
- `app/`: threads, files and logging around the library.
