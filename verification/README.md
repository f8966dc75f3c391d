# magma

A strictly typed interface to the Vulkan API.

The crate is split in two:

- `src/` is the library, written and proved with Verus. It holds the
  decisions of the interface as functions on plain values: the Vulkan codes
  and flag sets of formats, image and buffer usages, pipeline stages, access
  flags, attachments, descriptor types and aspects; the errors each driver
  result code denotes; the checks made before work is handed to the driver
  (extensions, memory types, alignment, sample counts, subpass references);
  the grouping of requested queues by family and the order the queues are
  handed out in; the descriptor writes an update collects; and the set of
  resources a recorded command buffer uses. Each function states its
  behaviour in its contract, and the laws that relate functions (round trips
  of encodings, unions of flag sets, queue requests being served) are proof
  functions.
- `app/` drives the Vulkan loader through `ash`: it creates the instance,
  devices, buffers, images, render passes, framebuffers, command pools and
  descriptor pools, converts between the library's plain values and `ash`
  types, and asks the library what to do with what the driver returns.

`tests/` runs the library against the constants that `ash` defines.
