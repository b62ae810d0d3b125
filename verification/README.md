# gl_nt

A small graphics library over OpenGL (meshes, shaders, textures,
framebuffers, window input), verified with Verus.

- `src/` is the verified library. The GPU work of meshes, textures,
  framebuffers, shader builds, program binding, integer uniforms, clearing and
  viewports is computed as lists of `GlCall`s (one OpenGL call each, with its
  arguments) from plain values: the object names the driver handed out, the
  status words it reported, the sizes, the settings. The contracts state those
  lists exactly, and a model of the context's bindings (`GlState`) states what
  runs of them do. The host makes the calls that return values (object
  creation, status and uniform-location queries, info logs) and the calls that
  take floats (float uniforms, `glClearColor`). Image files are decoded in
  `src/` through the `image` crate (trusted wrappers in `src/texture.rs`,
  whose results are named by `decoded_image`, `decoded_rgb8` and
  `decoded_rgba8`); the host only reads the file's bytes. The input state of a window is a
  state machine over window events, with its laws proved in `src/window.rs`.
- `app/` runs the calls on a live OpenGL context (every OpenGL entry point is
  an `unsafe` foreign function), asks the driver for object names and status
  words, reads shader sources and image files, drives the GLFW window, and
  releases GPU objects on drop.
- `tests/` checks the call lists on concrete values, the enumerant values
  against the `gl` crate, and the image flip against the `image` crate.
