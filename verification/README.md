# truvis-render

The decisions of a Vulkan renderer, verified with Verus, and a small program
that drives Vulkan with them.

`src/` is the verified library. It works on plain values (raw Vulkan enum and
flag values, handles as integers, names as character vectors) and states what
each function computes:

- `instance`, `debug`: the layers, extensions and versions the instance is made
  with, the check that they are available, the debug messenger's filters and
  the layout of the messages it logs, the names objects get;
- `device`, `swapchain`, `format`: the choice of GPU, queue families and queues,
  present mode, surface format and depth format, the shared descriptor pool;
- `frame`: the frames in flight, their numbering and debug names, and the
  command buffers each frame slot hands out and takes back;
- `ui`: the draw calls of an immediate-mode UI frame over merged vertex and
  index buffers;
- `align`, `spirv`, `resources`, `submit`, `settings`, `timer`,
  `camera_controller`, `text`, `vkconst`: uniform-buffer alignment, SPIR-V
  decoding, resource descriptions, queue submissions, defaults, the frame
  timer, the camera controller's moves, decimal names, raw Vulkan values.

Calls into `ash` and into `std`'s clock stand behind a few trusted wrappers,
each documented with what its contract claims.

`app/` is the program around the library: it loads Vulkan with `ash`, creates
the instance, device, pools, shader modules and pipelines the way the library
decides, steps the frames in flight, plans a UI frame from `imgui`'s draw data,
and holds the floating-point camera and scissor arithmetic.

`tests/` checks the library on concrete values.
