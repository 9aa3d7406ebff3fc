# llmrs

Host-side bookkeeping of a GPT-2 training program whose heavy lifting runs in
device kernels, with its behaviour stated in contracts and proved.

- `src/config.rs`: hyperparameters and the sizes of the parameter, activation
  and activation-gradient tensors; the parameter count in closed form; the
  per-layer views of stacked tensors lie inside them.
- `src/formats.rs`: the 256-word little-endian file header and the 16-bit
  token payload.
- `src/model.rs`: reading a checkpoint's hyperparameters and parameter count;
  the lazy-allocation decision of the forward pass; token-id checks.
- `src/dataloader.rs`: the batch loader over a token dataset (batches in
  order, targets shifted by one, wrap-around).
- `src/tokenizer.rs`: the tokenizer file format and decoding.
- `src/layout.rs`: total sizes and per-layer ranges of flat buffers.
- `src/launch.rs`: launch geometry of every device kernel.
- `src/gemm.rs`: dimensions, leading dimensions, strides and batch counts of
  the matrix products of attention and of the linear layers' backward pass.
- `src/schedule.rs`: the decisions of the training loop.
- `app/`: the program: argument parsing, file mapping, the device model and
  kernel launches (through the project's GPU crates), sampling and printing.
