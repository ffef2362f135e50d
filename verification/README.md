# wrela

The decision logic of the Wrela game tools, written in Verus and verified: seeds and seed
graphs, input mapping and the fixed-step clock, the client shell's bookkeeping, command-line
parsing for the client, the headless runner and the task runner, the harness contract
(scenario validation, daemon requests, artifact layout), the live tweak registry and tweak
packs and the tweak panel's decisions (tabs, save, reload, clear, live edits), the headless
scenario world (scripted inputs, fixed steps, records), the headless scenario run (seed
graph, frame loop, which assertion is checked at which frame on which metric value, first
failing assertion, summaries, determinism hash) and the report each stage of a run writes,
the reading of nextest's JSON output into suite counts (the JSON parse itself is
`serde_json`, behind one trusted wrapper) and the nextest suite's verdict, the capture
command's report at each stage, the integer parts of the terrain mesh (chunk grid, triangle
index layout with alternating diagonals, vertex and triangle counts) and of the GPU readback
(row unpadding, lit-pixel count), and the small enums and error types of the
world-generation and geometry crates.

In a scenario run, the `f32` comparison of a metric's value with an assertion is the
caller's judge closure (the app's `compare_metric`): the library proves that each record is
that judge's verdict on the right value at the right frame, in order, not what the judge
decides.

Layout:

- `src/` — the verified library, one module per workspace crate (`wr_world_seed`,
  `wr_platform`, `wr_core`, `wr_ecs`, `wr_tools_harness`, `xtask`, ...), plus `text` (string
  helpers, line splitting, and the trusted wrappers of std's number parsing, UTF-8 check and
  `String::push`) and `string_map` (a sorted string map and set).
- `tests/` — tests of the library, run against the compiled crate.
- `app/` — what touches the outside world: clock, git, environment, file system, child
  processes, JSON and RON, and the conversions to and from `f32`, including the `f32`
  comparison of a metric with an assertion (`app/headless_run.rs`, which also holds the
  run-scenario command). It calls the library for the other decisions.

Tweak scalars are held as the bit patterns of their `f32` values and compared as `f32`
compares them; assertion values are held the same way. Floating-point geometry, the ECS
scheduler, the GPU renderer, the windowing loop, the egui panel's drawing (its decisions are `TweakUiShell::apply_panel_event`) and the agent
daemon's HTTP server are not part of this crate.
