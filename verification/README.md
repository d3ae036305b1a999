# hefaos_testbench

The decision logic of a deterministic SO-101 conformance, replay and
benchmark bench, verified with Verus.

A scenario drives a subject under test (a perception/control/gate stack) and
a plant through virtual-time control turns. Between the subject's admitted
intents and the plant stands an independent safety controller. Every turn is
recorded as semantic evidence, and that evidence can be validated, replayed
and compared.

## Layout

- `src/` — the verified library.
  - `units`, `contracts`: integer time and identity units, and the versioned
    contract types. Joint states and commands are floating-point vectors, so
    every type that carries one is generic over it.
  - `clock`: the virtual clock.
  - `safety`: the independent safety controller, its state model and its laws.
  - `gate`, `reference`: stream envelopes and cursors, and the reference
    subject (estimator, position controller and stateful motion gate).
  - `scenario`: static validation of a scenario.
  - `turn`: the decisions of one control turn of a run (scheduled actions,
    fault injection on each stream, containment of a failed subject turn, the
    intent offered to the safety controller, the finished trace).
  - `run_summary`, `summary`: run summaries, latency percentiles, benchmark
    reports.
  - `evidence`: integrity checks on a semantic trace, including a replay of
    the safety controller from the recorded events.
  - `expectations`, `compare`, `replay`: the verdict of a run, semantic trace
    comparison, and replay of a subject against a recorded trace.
  - `digest`, `text`, `timing`, `harness`: SHA-256 rendering, text helpers,
    timing evidence of a rate-limited executor run, and the harness types.
- `app/` — the command line: JSON files, the mock plant, the floating-point
  verdicts the library consumes, and the run and replay loops that call the
  subject and the plant.
- `tests/` — tests of the library, driving it with concrete floating-point
  payloads.

Floating-point verdicts (finiteness, limits, tolerances, rate limiting) are
computed outside the library and handed to it as plain booleans in `*Facts`
structures; every decision taken from them is verified.

The executor-backed parts of the bench (the Copper graph run, its log files,
keyframe restore from recorded logs and the corpus commands built on them)
are not here: they need the Copper runtime crates, which this build does not
have. The decisions those parts take are verified here all the same, in
`timing`: the analysis of a rate-limited run's recorded timestamps and the
check of its outputs against the harness trace.
