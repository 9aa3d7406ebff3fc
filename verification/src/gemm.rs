//! Dimensions handed to the column-major matrix products of the attention
//! layer and of the backward pass of a linear layer: sizes, leading
//! dimensions, strides between batched matrices and batch counts, each cast
//! to the integer width the product routine takes.

use vstd::prelude::*;

verus! {

/// A batched product `C_i = op(A_i) op(B_i)` of `batch_count` column-major
/// matrices: `C_i` is `m x n`, the inner dimension is `k`, and consecutive
/// matrices lie `stride_*` elements apart.
#[derive(Debug, Clone, Copy, PartialEq, Eq, Structural)]
pub struct StridedGemmDims {
    pub m: i32,
    pub n: i32,
    pub k: i32,
    pub lda: i32,
    pub stride_a: i64,
    pub ldb: i32,
    pub stride_b: i64,
    pub ldc: i32,
    pub stride_c: i64,
    pub batch_count: i32,
}

/// A single product `C = op(A) op(B)` of column-major matrices: `C` is
/// `m x n` and the inner dimension is `k`.
#[derive(Debug, Clone, Copy, PartialEq, Eq, Structural)]
pub struct GemmDims {
    pub m: i32,
    pub n: i32,
    pub k: i32,
    pub lda: i32,
    pub ldb: i32,
    pub ldc: i32,
}

/// The products between a (T, T) score matrix and (T, HS) head matrices that
/// fit in a `usize`.
pub open spec fn attention_dims_fit(batch_size: usize, seq_len: usize, head_size: usize, num_heads: usize) -> bool {
    &&& seq_len * head_size <= usize::MAX
    &&& seq_len * seq_len <= usize::MAX
    &&& batch_size * num_heads <= usize::MAX
}

/// The products whose result is a (T, T) score matrix per head from two
/// (T, HS) head matrices: the scores `K^T Q` of the forward pass and the score
/// gradients `V^T dY` of the backward pass. `C` is T x T with inner dimension
/// HS; both inputs have leading dimension HS and stride T*HS, the result has
/// leading dimension T and stride T*T, over B*NH heads.
pub fn attention_scores_gemm(batch_size: usize, seq_len: usize, head_size: usize, num_heads: usize) -> (r: StridedGemmDims)
    requires
        attention_dims_fit(batch_size, seq_len, head_size, num_heads),
    ensures
        r.m == seq_len as i32,
        r.n == seq_len as i32,
        r.k == head_size as i32,
        r.lda == head_size as i32,
        r.stride_a == (seq_len * head_size) as i64,
        r.ldb == head_size as i32,
        r.stride_b == (seq_len * head_size) as i64,
        r.ldc == seq_len as i32,
        r.stride_c == (seq_len * seq_len) as i64,
        r.batch_count == (batch_size * num_heads) as i32,
{
    let head_stride = seq_len * head_size;
    let score_stride = seq_len * seq_len;
    let heads = batch_size * num_heads;
    StridedGemmDims {
        m: seq_len as i32,
        n: seq_len as i32,
        k: head_size as i32,
        lda: head_size as i32,
        stride_a: head_stride as i64,
        ldb: head_size as i32,
        stride_b: head_stride as i64,
        ldc: seq_len as i32,
        stride_c: score_stride as i64,
        batch_count: heads as i32,
    }
}

/// The products whose result is a (T, HS) head matrix per head: the weighted
/// values `V att` of the forward pass and the gradients of V, Q and K in the
/// backward pass. `C` is HS x T with inner dimension T; the head input has
/// leading dimension HS and stride T*HS, the (T, T) input leading dimension T
/// and stride T*T, the result leading dimension HS and stride T*HS, over B*NH
/// heads.
pub fn attention_values_gemm(batch_size: usize, seq_len: usize, head_size: usize, num_heads: usize) -> (r: StridedGemmDims)
    requires
        attention_dims_fit(batch_size, seq_len, head_size, num_heads),
    ensures
        r.m == head_size as i32,
        r.n == seq_len as i32,
        r.k == seq_len as i32,
        r.lda == head_size as i32,
        r.stride_a == (seq_len * head_size) as i64,
        r.ldb == seq_len as i32,
        r.stride_b == (seq_len * seq_len) as i64,
        r.ldc == head_size as i32,
        r.stride_c == (seq_len * head_size) as i64,
        r.batch_count == (batch_size * num_heads) as i32,
{
    let head_stride = seq_len * head_size;
    let score_stride = seq_len * seq_len;
    let heads = batch_size * num_heads;
    StridedGemmDims {
        m: head_size as i32,
        n: seq_len as i32,
        k: seq_len as i32,
        lda: head_size as i32,
        stride_a: head_stride as i64,
        ldb: seq_len as i32,
        stride_b: score_stride as i64,
        ldc: head_size as i32,
        stride_c: head_stride as i64,
        batch_count: heads as i32,
    }
}

/// The two products of the backward pass of a linear layer from C to OC
/// channels over B*T positions: the input gradient (C x B*T, inner dimension
/// OC) and the weight gradient (C x OC, inner dimension B*T); in both the
/// leading dimensions are C, OC and C.
pub fn matmul_backward_gemms(batch_size: usize, seq_len: usize, channel: usize, out_channel: usize) -> (r: (GemmDims, GemmDims))
    requires
        batch_size * seq_len <= usize::MAX,
    ensures
        r.0 == (GemmDims {
            m: channel as i32,
            n: (batch_size * seq_len) as i32,
            k: out_channel as i32,
            lda: channel as i32,
            ldb: out_channel as i32,
            ldc: channel as i32,
        }),
        r.1 == (GemmDims {
            m: channel as i32,
            n: out_channel as i32,
            k: (batch_size * seq_len) as i32,
            lda: channel as i32,
            ldb: out_channel as i32,
            ldc: channel as i32,
        }),
{
    let positions = batch_size * seq_len;
    let dinp = GemmDims {
        m: channel as i32,
        n: positions as i32,
        k: out_channel as i32,
        lda: channel as i32,
        ldb: out_channel as i32,
        ldc: channel as i32,
    };
    let dweight = GemmDims {
        m: channel as i32,
        n: out_channel as i32,
        k: positions as i32,
        lda: channel as i32,
        ldb: out_channel as i32,
        ldc: channel as i32,
    };
    (dinp, dweight)
}

} // verus!
