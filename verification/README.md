# vinit

Vulkan initialization planned with the type-state pattern, verified with Verus.

- `src/` is the verified library. `base::BaseConfig` records in its type parameters which
  resources are configured; items (`instance::Instance`, `device::Device`,
  `swapchain::Swapchain`, `command::CommandPool`) are added with `BaseConfig::with`, whose
  result each item's `Apply::apply_ensures` states exactly. The decisions taken while the
  resources are created are verified functions on plain values: the queue family indices of
  a device (`families::Families::query`), the physical device selection and the queues to
  create (`device::Device::select`, `device::Device::plan`), the requirement checks
  (`mass`), the instance's application info (`instance::Instance::plan`) and the swapchain's
  parameters (`swapchain::Swapchain::plan`).
- `app/` performs the Vulkan calls through `ash` and `ash-window`, owns and destroys what
  they create (`Base`), builds a configuration (`Build::build`) and converts between `ash`'s
  structures and the library's values.
- `tests/` exercises the library on concrete values.
