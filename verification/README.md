# learnopengl

The LearnOpenGL tutorials in Rust, split in two.

- `src/` is a library verified with Verus: choosing a tutorial by its number,
  the commands that keys and window events ask for, the direction of each
  camera movement, the layout of interleaved vertex buffers, the status check
  and failure message after a shader compiles or a program links, and the
  vertical flip of texture pixels (done by the `image` crate behind a
  specified wrapper).
- `app/` is the program around it: command-line handling, the GLFW window,
  all OpenGL calls, and the camera, light and material, whose state is
  single-precision floats.
