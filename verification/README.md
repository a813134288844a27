# vehicle_scene

A small WebGL scene (a vehicle hull over a terrain, with axis lines), split in two:

- `src/` — the verified library (Verus): keyboard bindings (`controls`), the
  uniform-block layout of transform matrices (`uniforms`), and the index data of
  the meshes (`grid`, `terrain`, `vehicle`), with their contracts and laws.
- `app/` — the browser program: WebGL calls, the floating-point pose and matrix
  algebra (cgmath), shader sources, and the render loop.
- `tests/` — tests of the library on concrete values.
