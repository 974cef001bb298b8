# rust_gpu_test

A window that draws a full-screen triangle whose fragment shader ray-casts
two triangles and colours them by time.

- `src/` is the verified library: the display uniform block and its byte
  layout (`display`), the vertex stage's full-screen triangle (`vertex`),
  the loop's decisions on resume and on each window event (`events`), the
  decision on each acquired frame (`frame`), and the laws that relate them
  (`laws`).
- `app/` holds the platform side: the winit event loop, the wgpu device,
  surface and pipeline, and the shader stages in floating point. It turns
  platform events into the library's plain values and carries out the
  actions the library returns.
- `tests/` runs the library on concrete values.
