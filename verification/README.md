# mapvina_native

Bindings to the MapVina Native map renderer, split in two:

- `src/` is the verified library (Verus): the values exchanged with the
  native renderer (sizes, enums and their numbers, file-source responses),
  decoding of rendered images, the renderer's style gate and style-path
  handling, the rendering pool worker's style cache, log-record formatting,
  resource and tile-server option records, and the calls of the registered
  Rust callbacks.
- `app/` holds what talks to the native library through `cxx`, the
  floating-point camera and colour values, and the pool's threads; it hands
  every decision to the library.
