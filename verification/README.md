# sam_shader_engine

The verified core of a WebGL2 shader engine for a resume page.

- `src/effects/`: the six shader presets (name, description, GLSL sources) behind the
  `ShaderEffect` trait, and `EffectRegistry`, which holds the desktop and mobile presets
  and the selection in each, with its laws in `registry.rs`.
- `src/engine/input.rs`: `RippleQueue`, the bounded queue of ripple shockwaves, with its laws.
- `app/`: the browser side (WebGL context, canvas, frame loop, and the floating-point
  pointer, scroll and parameter controllers), exported to JavaScript with `wasm-bindgen`.
- `tests/`: the tests of the library.
