# fortitude

The core of a proactive research subsystem, written in Verus: knowledge gap detection
in source files, the rules that filter and rank detected gaps, the impact analyses and
integer scoring rules behind their priorities, an expiring cache of computed scores, a
priority queue of research tasks with its state machine, a file event queue with rate
limiting, circuit breakers and recovery decisions for failing operations, notification
routing with per-channel rate limits, delivery tracking, the range checks and text
settings of the configuration, and the settings of the manager that ties them together.

## Layout

- `src/` is the verified library. Each module states its behaviour in `requires` /
  `ensures` contracts over mathematical models (`Seq`, `Map`, spec functions) and
  proves them; properties that span several operations are public proof functions
  (`lemma_*`). Scores are kept in tenths of a point and confidences in percent. Calls
  into `regex`, `chrono`, `uuid` and a few `std` functions stand behind small trusted
  wrappers whose contracts are documented where they are declared (`patterns.rs`,
  `clock.rs`, `text.rs`, and a path helper in each of `file_monitor.rs` and
  `gap_analyzer.rs`).
- `tests/` exercises the library on concrete values.
- `app/` is the runtime around it: file reading and watching, JSON, YAML and TOML
  configuration files, environment variables and hot reload, HTTP and file delivery,
  timed retry loops, the notification testing harness, the configurable analysis
  pipeline, priority scoring, and the floating-point weights, thresholds and scores
  that the library leaves to its callers.
