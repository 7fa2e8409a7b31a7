# dmr_hex

A desktop utility that generates cryptographically random hex keys for DMR AES
encryption (AES-128 and AES-256), keeps them only in memory, and wipes them as
soon as they are no longer needed.

- `src/` is the library, verified with Verus: options (`config`), key
  generation and hex encoding (`crypto`), wiped-on-drop buffers (`security`),
  clipboard bookkeeping (`clipboard`), the generator's state and timers
  (`app`), texts (`text`, `messages`), colour palettes (`theme`), and the
  properties that span several operations (`laws`).
- `app/` is the egui window around it: it owns the system clipboard and the
  clock, and turns palettes into egui styles.
- `tests/` exercise the library on concrete values.
