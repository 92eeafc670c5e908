# vulkan_tutorial

A window that sets up Vulkan for drawing: instance, surface, physical and
logical device, swapchain, render pass, graphics pipeline and framebuffers.

The library (`src/`) holds every decision this setup makes, verified with
Verus:

- `queues`: the graphics family (first with the graphics bit), the present
  family, the distinct families to create queues for, and how swapchain
  images are shared between them.
- `search`: the first-match search used to find the present family and the
  first suitable physical device, with the law that it stops at the first
  accepted candidate.
- `swapchain`: surface format, present mode, extent, image count and the
  complete swapchain settings.
- `device`, `instance`, `consts`, `names`: required extensions, validation
  layers, macOS portability and the application description.
- `pipeline`: the render pass, pipeline, image view and framebuffer settings
  and the check of SPIR-V bytecode.
- `teardown`: the order objects are destroyed in, each before what it was
  made from.
- `events`: what the event loop does for each window event.
- `platform`: the few safe calls into vulkanalia, each with a
  trusted contract.

Every Vulkan command is an `unsafe fn`, so `app/` makes them, with the
values the library decides. The compiled shaders are read at run time from
`shaders/vert.spv` and `shaders/frag.spv`.
