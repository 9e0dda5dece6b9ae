# bevy_openxr_poc

OpenXR/Vulkan interop for Bevy. An OpenXR instance is created before the renderer
starts, so that the runtime can say which Vulkan extensions the renderer has to
enable. A session is then bound to the renderer's own Vulkan device, the runtime's
stereo swapchain is wrapped as texture views, and the OpenXR frame loop drives it
all.

- `src/` is the library: every decision on that way, verified with Verus. It calls
  no runtime and no renderer. Each step function takes what a call came to, updates
  the state and says which call is next.
  Two small calls into `openxr` are trusted: telling its session states apart, and
  printing its version numbers.
- `app/` is the program: it makes the calls and hands their outcomes back. The
  order of the systems within a tick is set there.
- `tests/` runs the library on concrete values.

Single-precision numbers are carried through `src/` by their bit patterns. The
projection matrices are computed by functions that are generic over the type of
number, and `app/` uses them with `f32`.

The runtime is not asked yet where the eyes are: they sit a fixed distance apart,
the head does not move, and the submitted fields of view are placeholders.
