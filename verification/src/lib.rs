//! Host-side bookkeeping of a GPT-2 training program: model configuration and
//! tensor sizes, the binary formats of checkpoints, token datasets and
//! tokenizers, the batch loader, the layout of flat tensor buffers, the launch
//! geometry of the device kernels and the schedule of the training loop.

pub mod config;
pub mod layout;
pub mod formats;
pub mod dataloader;
pub mod tokenizer;
pub mod launch;
pub mod schedule;
pub mod model;
pub mod gemm;
