# raytracing_minecraft

A ray tracer for a block diorama (cubes, half-height slabs and blocks with
separate top and side textures), split in two:

- `src/` is the verified decision logic: ranks of floating-point values and
  their IEEE order (`rank`), the slab test for a ray against an axis-aligned
  box (`slab`), which face a hit lies on (`faces`), the nearest hit and the
  shadow test (`hits`), the recursion-depth gate, texture choice and sky
  bands (`shading`), pixel order and frame bytes (`frame`), and the camera
  keys (`controls`).
- `app/` is the program: window, input, textures, and all floating-point
  geometry and shading, which hands ranks to the library for every decision
  that only compares numbers.
