# petals

A tool for labelling pairs of petal photographs (one on a white, one on a black
background): the page corners of each photo are marked so it can be warped flat,
bounding boxes are drawn around the petals, the two images of a petal are overlaid,
and the petals are packed into an atlas for rendering.

- `src/` is the verified library: image identities, the rules for reading a pair's
  directory and the decoding of its images (through the `image` crate), pane titles, the labelling state machine (corner clicks, box drags), the
  overlay and atlas arithmetic, compute dispatch sizes, and the constructors of the GPU
  shader modules (over `wgpu`, reporting shaders that do not compile). Points and boxes are generic there; the application
  instantiates them with egui's floating-point types.
- `app/` is the egui/eframe application: drawing, input, listing and reading files,
  the floating-point geometry (perspective warp, rotations) and the GPU passes.
- `tests/` exercises the library on concrete values.

The application reads its WGSL shaders at run time from `shader_build/<name>.wgsl`
(`compute`, `warp`, `opacity`, `render`, `combine`).
