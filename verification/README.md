# cube_conv

Verified index logic of a two-dimensional transposed-convolution compute
kernel.

- `src/tensor_info.rs`: tensor metadata (shape and strides) and the metadata
  queries a kernel registers while it is expanded.
- `src/ir.rs`: the kernel representation those queries produce.
- `src/window.rs`: per axis, which input positions reach an output position and
  the window of positions the kernel scans.
- `src/conv_transpose2d.rs`: what one kernel invocation reads (the bias entry
  and every input/weight product of its output element), the kernel's
  launch requirements, and the host-side output shape, bias shape and
  scalars.
- `src/conv_transpose2d_scope.rs`: the kernel's operations as its expansion
  registers them into a context, and the kernel definition (bindings and
  scope) compiled from them.
- `src/semantics.rs`: what the kernel's operations compute when one
  invocation runs them (exact integers; array elements kept as symbolic
  reads, products and sums).
- `src/kernel_run.rs`: running the kernel's operations as one invocation
  stores, at the invocation's output element, the bias of its output channel
  plus exactly the products `expand` lists, in order.
- `app/lib.rs`: conversion from burn's options and shapes, and a CPU runner
  that sums the floating-point products of every invocation.

Two behaviours of the kernel are kept as the kernel has them:

- when the dilated kernel is shorter than the stride along an axis, the
  window of input positions the kernel scans is empty, so such an invocation
  stores only its bias;
- without a bias, the host makes a zero bias as long as the batch, and the
  kernel reads it at the output channel, which can lie past its end when
  there are more output channels than batch entries.
