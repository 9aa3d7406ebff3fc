//! Launch geometry of the device kernels: how many thread blocks of which
//! shape each kernel runs on, and how much shared memory each block gets.

use vstd::prelude::*;

verus! {

/// `n / d` rounded up.
pub open spec fn ceil_div(n: int, d: int) -> int {
    (n + d - 1) / d
}

/// `n / d` rounded up.
pub fn div_ceil(n: usize, d: usize) -> (r: usize)
    requires
        d > 0,
    ensures
        r == ceil_div(n as int, d as int),
{
    let q = n / d;
    let m = n % d;
    proof {
        vstd::arithmetic::div_mod::lemma_fundamental_div_mod(n as int, d as int);
        let ni = n as int;
        let di = d as int;
        let qi = q as int;
        let mi = m as int;
        assert(ni == di * qi + mi);
        if m == 0 {
            assert(ni + di - 1 == qi * di + (di - 1)) by (nonlinear_arith)
                requires
                    ni == di * qi + mi,
                    mi == 0,
            ;
            vstd::arithmetic::div_mod::lemma_fundamental_div_mod_converse(ni + di - 1, di, qi, di - 1);
        } else {
            assert(ni + di - 1 == (qi + 1) * di + (mi - 1) && qi + 1 <= ni) by (nonlinear_arith)
                requires
                    ni == di * qi + mi,
                    mi >= 1,
                    di >= 1,
                    qi >= 0,
            ;
            vstd::arithmetic::div_mod::lemma_fundamental_div_mod_converse(ni + di - 1, di, qi + 1, mi - 1);
        }
    }
    if m == 0 {
        q
    } else {
        q + 1
    }
}

/// `ceil(n / block)` blocks of `block` threads cover `n` threads, and no
/// block lies wholly past them: the last block starts below `n`.
pub proof fn lemma_linear_covers(n: nat, block: nat)
    requires
        block > 0,
    ensures
        ceil_div(n as int, block as int) * block >= n,
        n > 0 ==> (ceil_div(n as int, block as int) - 1) * block < n,
        n == 0 ==> ceil_div(n as int, block as int) == 0,
{
    let b = block as int;
    let x = n + b - 1;
    let q = x / b;
    vstd::arithmetic::div_mod::lemma_fundamental_div_mod(x, b);
    vstd::arithmetic::div_mod::lemma_mod_bound(x, b);
    let r = x % b;
    assert(q * b >= n && (n > 0 ==> (q - 1) * b < n)) by (nonlinear_arith)
        requires
            x == b * q + r,
            0 <= r < b,
            x == n + b - 1,
            b > 0,
    ;
    if n == 0 {
        assert((b - 1) / b == 0) by {
            vstd::arithmetic::div_mod::lemma_basic_div(b - 1, b);
        }
    }
}

/// A kernel launch: grid of thread blocks, block of threads, and bytes of
/// shared memory per block.
#[derive(Debug, Clone, Copy, PartialEq, Eq, Structural)]
pub struct LaunchConfig {
    pub grid_x: u32,
    pub grid_y: u32,
    pub grid_z: u32,
    pub block_x: u32,
    pub block_y: u32,
    pub block_z: u32,
    pub shared_mem: u32,
}

/// A one-dimensional launch of `ceil(n / block)` blocks of `block` threads
/// without shared memory.
pub open spec fn is_linear(c: LaunchConfig, n: int, block: u32) -> bool {
    &&& c.grid_x == ceil_div(n, block as int) as u32
    &&& c.grid_y == 1
    &&& c.grid_z == 1
    &&& c.block_x == block
    &&& c.block_y == 1
    &&& c.block_z == 1
    &&& c.shared_mem == 0
}

/// A one-dimensional launch covering `n` threads with blocks of `block` threads.
pub fn linear_config(n: usize, block: u32) -> (r: LaunchConfig)
    requires
        block > 0,
    ensures
        is_linear(r, n as int, block),
{
    let grid = div_ceil(n, block as usize);
    LaunchConfig {
        grid_x: grid as u32,
        grid_y: 1,
        grid_z: 1,
        block_x: block,
        block_y: 1,
        block_z: 1,
        shared_mem: 0,
    }
}

/// Token and position embedding: one thread per four channels of each of the
/// `batch_size * seq_len` positions, 512 threads per block.
pub fn encoder_forward_config(batch_size: usize, seq_len: usize, channel: usize) -> (r: LaunchConfig)
    requires
        channel % 4 == 0,
        batch_size * seq_len <= usize::MAX,
        batch_size * seq_len * channel <= usize::MAX,
    ensures
        is_linear(r, batch_size * seq_len * channel / 4, 512),
{
    let n = batch_size * seq_len * channel;
    linear_config(n / 4, 512)
}

/// Backward pass of the embedding: one thread per element, 256 per block.
pub fn encoder_backward_config(batch_size: usize, seq_len: usize, channel: usize) -> (r: LaunchConfig)
    requires
        batch_size * seq_len <= usize::MAX,
        batch_size * seq_len * channel <= usize::MAX,
    ensures
        is_linear(r, batch_size * seq_len * channel, 256),
{
    let n = batch_size * seq_len * channel;
    linear_config(n, 256)
}

/// Layer normalization: one warp of 32 threads per position, 512 threads per block.
pub fn layernorm_forward_config(batch_size: usize, seq_len: usize) -> (r: LaunchConfig)
    requires
        batch_size * seq_len * 32 <= usize::MAX,
    ensures
        is_linear(r, batch_size * seq_len * 32, 512),
{
    assert(batch_size * seq_len <= batch_size * seq_len * 32) by (nonlinear_arith);
    let n = batch_size * seq_len;
    linear_config(n * 32, 512)
}

/// Backward pass of layer normalization: one warp per position, 512 threads
/// per block, and shared memory for two floats per channel.
pub fn layernorm_backward_config(batch_size: usize, seq_len: usize, channel: usize) -> (r: LaunchConfig)
    requires
        batch_size * seq_len * 32 <= usize::MAX,
        2 * channel * 4 <= usize::MAX,
    ensures
        r.grid_x == ceil_div(batch_size * seq_len * 32, 512) as u32,
        r.grid_y == 1,
        r.grid_z == 1,
        r.block_x == 512,
        r.block_y == 1,
        r.block_z == 1,
        r.shared_mem == (2 * channel * 4) as u32,
{
    assert(batch_size * seq_len <= batch_size * seq_len * 32) by (nonlinear_arith);
    let n = batch_size * seq_len;
    let grid = div_ceil(32 * n, 512);
    let shared_mem_size = 2 * channel * 4;
    LaunchConfig {
        grid_x: grid as u32,
        grid_y: 1,
        grid_z: 1,
        block_x: 512,
        block_y: 1,
        block_z: 1,
        shared_mem: shared_mem_size as u32,
    }
}

/// Matrix multiplication `(B*T, C) x (C, OC)`: 16 x 16 thread blocks, each
/// computing an 8 x 8 tile per thread, so 128 rows and 128 columns per block.
pub fn matmul_forward_config(batch_size: usize, seq_len: usize, out_channel: usize) -> (r: LaunchConfig)
    requires
        batch_size * seq_len <= usize::MAX,
    ensures
        r.grid_x == ceil_div(batch_size * seq_len, 128) as u32,
        r.grid_y == ceil_div(out_channel as int, 128) as u32,
        r.grid_z == 1,
        r.block_x == 16,
        r.block_y == 16,
        r.block_z == 1,
        r.shared_mem == 0,
{
    let n = batch_size * seq_len;
    let grid_x = div_ceil(n, 128);
    let grid_y = div_ceil(out_channel, 128);
    LaunchConfig {
        grid_x: grid_x as u32,
        grid_y: grid_y as u32,
        grid_z: 1,
        block_x: 16,
        block_y: 16,
        block_z: 1,
        shared_mem: 0,
    }
}

/// Bias gradient of a matrix multiplication: one block of 1024 threads per 32
/// output channels, with 1024 floats of shared memory.
pub fn matmul_backward_bias_config(out_channel: usize) -> (r: LaunchConfig)
    ensures
        r.grid_x == ceil_div(out_channel as int, 32) as u32,
        r.grid_y == 1,
        r.grid_z == 1,
        r.block_x == 1024,
        r.block_y == 1,
        r.block_z == 1,
        r.shared_mem == 4096,
{
    let grid = div_ceil(out_channel, 32);
    LaunchConfig {
        grid_x: grid as u32,
        grid_y: 1,
        grid_z: 1,
        block_x: 1024,
        block_y: 1,
        block_z: 1,
        shared_mem: 4096,
    }
}

/// Launches of the attention kernels and the head size they work with.
#[derive(Debug, Clone, Copy, PartialEq, Eq, Structural)]
pub struct AttentionLaunch {
    /// Channels per head: `channel / num_heads`.
    pub head_size: usize,
    /// The (un)permutation between (B, T, 3, NH, HS) and three (B, NH, T, HS) tensors.
    pub permute: LaunchConfig,
    /// The softmax of the attention scores (backward: its autoregressive gradient).
    pub softmax: LaunchConfig,
    /// The (un)permutation between (B, NH, T, HS) and (B, T, C).
    pub unpermute: LaunchConfig,
}

/// The attention configuration the kernels accept: at least one head and a
/// channel count that the heads share evenly.
pub open spec fn attention_ok(channel: usize, num_heads: usize) -> bool {
    num_heads > 0 && channel % num_heads == 0
}

/// Launches of the forward attention: permute one thread per element of q,
/// k and v, softmax one warp per row of scores, unpermute one thread per
/// output element, all with blocks of 256 threads.
pub fn attention_forward_config(batch_size: usize, seq_len: usize, channel: usize, num_heads: usize) -> (r: AttentionLaunch)
    requires
        attention_ok(channel, num_heads),
        batch_size * seq_len <= usize::MAX,
        batch_size * seq_len * channel <= usize::MAX,
        batch_size * num_heads <= usize::MAX,
        batch_size * num_heads * seq_len <= usize::MAX,
        batch_size * num_heads * seq_len * 32 <= usize::MAX,
    ensures
        r.head_size == channel / num_heads,
        is_linear(r.permute, batch_size * num_heads * seq_len * (channel / num_heads), 256),
        is_linear(r.softmax, batch_size * num_heads * seq_len * 32, 256),
        is_linear(r.unpermute, batch_size * seq_len * channel, 256),
{
    let head_size = channel / num_heads;
    proof {
        lemma_heads_cover_channels(batch_size, seq_len, channel, num_heads);
    }
    let total_threads = batch_size * num_heads * seq_len * head_size;
    let permute = linear_config(total_threads, 256);
    let softmax = linear_config(batch_size * num_heads * seq_len * 32, 256);
    let unpermute = linear_config(batch_size * seq_len * channel, 256);
    AttentionLaunch { head_size, permute, softmax, unpermute }
}

/// Launches of the backward attention: unpermute one thread per element,
/// the autoregressive softmax gradient on a (T / 4, B * NH) grid of 256-thread
/// blocks, and permute one thread per element of q, k and v.
pub fn attention_backward_config(batch_size: usize, seq_len: usize, channel: usize, num_heads: usize) -> (r: AttentionLaunch)
    requires
        attention_ok(channel, num_heads),
        batch_size * seq_len <= usize::MAX,
        batch_size * seq_len * channel <= usize::MAX,
        batch_size * num_heads <= usize::MAX,
        batch_size * num_heads * seq_len <= usize::MAX,
        batch_size * num_heads * seq_len * 32 <= usize::MAX,
    ensures
        r.head_size == channel / num_heads,
        is_linear(r.unpermute, batch_size * seq_len * channel, 256),
        r.softmax.grid_x == (seq_len / 4) as u32,
        r.softmax.grid_y == (batch_size * num_heads) as u32,
        r.softmax.grid_z == 1,
        r.softmax.block_x == 256,
        r.softmax.block_y == 1,
        r.softmax.block_z == 1,
        r.softmax.shared_mem == 0,
        is_linear(r.permute, batch_size * num_heads * seq_len * (channel / num_heads), 256),
{
    let head_size = channel / num_heads;
    proof {
        lemma_heads_cover_channels(batch_size, seq_len, channel, num_heads);
    }
    let unpermute = linear_config(batch_size * seq_len * channel, 256);
    let softmax = softmax_autoregressive_backward_config(batch_size * num_heads, seq_len);
    let total_threads = batch_size * num_heads * seq_len * head_size;
    let permute = linear_config(total_threads, 256);
    AttentionLaunch { head_size, permute, softmax, unpermute }
}

/// With heads sharing the channels evenly, there is one permute thread per
/// element of a (B, T, C) tensor.
pub proof fn lemma_heads_cover_channels(batch_size: usize, seq_len: usize, channel: usize, num_heads: usize)
    requires
        attention_ok(channel, num_heads),
    ensures
        batch_size * num_heads * seq_len * (channel / num_heads) == batch_size * seq_len * channel,
{
    let b = batch_size as int;
    let t = seq_len as int;
    let c = channel as int;
    let nh = num_heads as int;
    let hs = c / nh;
    vstd::arithmetic::div_mod::lemma_fundamental_div_mod(c, nh);
    assert(c == nh * hs);
    assert(b * nh * t * hs == b * t * (nh * hs)) by (nonlinear_arith);
}

/// Residual addition: one thread per element, 256 per block.
pub fn residual_forward_config(n: usize) -> (r: LaunchConfig)
    ensures
        is_linear(r, n as int, 256),
{
    linear_config(n, 256)
}

/// GELU: one thread per element, 128 per block.
pub fn gelu_forward_config(n: usize) -> (r: LaunchConfig)
    ensures
        is_linear(r, n as int, 128),
{
    linear_config(n, 128)
}

/// Backward pass of GELU: one thread per element, 128 per block.
pub fn gelu_backward_config(n: usize) -> (r: LaunchConfig)
    ensures
        is_linear(r, n as int, 128),
{
    linear_config(n, 128)
}

/// Fused classifier (softmax and cross-entropy): one block of 1024 threads
/// per position.
pub fn fused_classifier_config(batch_size: usize, seq_len: usize) -> (r: LaunchConfig)
    requires
        batch_size * seq_len <= usize::MAX,
    ensures
        r.grid_x == (batch_size * seq_len) as u32,
        r.grid_y == 1,
        r.grid_z == 1,
        r.block_x == 1024,
        r.block_y == 1,
        r.block_z == 1,
        r.shared_mem == 0,
{
    let grid = batch_size * seq_len;
    LaunchConfig {
        grid_x: grid as u32,
        grid_y: 1,
        grid_z: 1,
        block_x: 1024,
        block_y: 1,
        block_z: 1,
        shared_mem: 0,
    }
}

/// Softmax of attention scores: one warp per row of `seq_len` scores, 256
/// threads per block.
pub fn softmax_forward_config(batch_size: usize, seq_len: usize, num_heads: usize) -> (r: LaunchConfig)
    requires
        batch_size * num_heads <= usize::MAX,
        batch_size * num_heads * seq_len <= usize::MAX,
        batch_size * num_heads * seq_len * 32 <= usize::MAX,
    ensures
        is_linear(r, batch_size * num_heads * seq_len * 32, 256),
{
    linear_config(batch_size * num_heads * seq_len * 32, 256)
}

/// Gradient of the autoregressive softmax: a (T / 4, rows) grid of blocks of
/// 256 threads, where `rows` is the number of score matrices.
pub fn softmax_autoregressive_backward_config(rows: usize, seq_len: usize) -> (r: LaunchConfig)
    ensures
        r.grid_x == (seq_len / 4) as u32,
        r.grid_y == rows as u32,
        r.grid_z == 1,
        r.block_x == 256,
        r.block_y == 1,
        r.block_z == 1,
        r.shared_mem == 0,
{
    LaunchConfig {
        grid_x: (seq_len / 4) as u32,
        grid_y: rows as u32,
        grid_z: 1,
        block_x: 256,
        block_y: 1,
        block_z: 1,
        shared_mem: 0,
    }
}

/// AdamW parameter update: one thread per parameter, 512 per block.
pub fn adamw_config(num_parameters: usize) -> (r: LaunchConfig)
    ensures
        is_linear(r, num_parameters as int, 512),
{
    linear_config(num_parameters, 512)
}

} // verus!
