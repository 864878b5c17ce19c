# vki

A WebGPU-style graphics library on Vulkan, with its bookkeeping and
decision logic verified by Verus.

- `src/` is the verified library: serial queues and the fenced deleter that
  destroys GPU objects once the work using them has completed, the device's
  submission state, fences, resource usage tracking and transitions, command
  encoding, render pass and pipeline descriptions, bind groups, swapchain
  planning, and the mapping of library types to Vulkan values. Objects that
  live on the GPU are held by their raw handles; functions named `create_*`
  work out how an object is to be created.
- `app/` talks to Vulkan through `ash`: it creates the instance and device,
  queries the driver, records and submits, and carries out what the library
  decides.
- `tests/` exercises the library on concrete values.
