# my_cube_plugin

A falling-block simulation that runs as compute shaders inside a render graph.

- `src/` is the verified library: the steering read from the keys, the per-frame
  tick decisions of the simulation node (what to write to the GPU, which compute
  passes to record and with which bind groups), and the descriptions of every GPU
  resource the simulation creates (buffer sizes, bind group layouts and groups,
  pipelines, images). `src/laws.rs` proves the properties that tie them together.
- `app/` is the program around it: it creates the window, the GPU resources and the
  render graph node from those descriptions, measures time in seconds and records
  the passes the library plans.
- `tests/` runs the library on concrete values.
