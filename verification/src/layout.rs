//! Layout of flat tensor buffers: the total size of tensors packed one after
//! another, and the per-layer pieces of tensors that stack one slice per
//! transformer layer.

use vstd::prelude::*;

verus! {

/// Sum of a sequence of integers.
pub open spec fn seq_sum(s: Seq<int>) -> int
    decreases s.len(),
{
    if s.len() == 0 {
        0
    } else {
        seq_sum(s.drop_last()) + s.last()
    }
}

/// A sequence of sizes read as integers.
pub open spec fn as_ints(s: Seq<usize>) -> Seq<int> {
    s.map_values(|v: usize| v as int)
}

/// The sum of a prefix of a sequence of non-negative integers is at most the
/// sum of the whole sequence.
proof fn lemma_prefix_sum_le(s: Seq<int>, k: int)
    requires
        0 <= k <= s.len(),
        forall|i: int| 0 <= i < s.len() ==> s[i] >= 0,
    ensures
        seq_sum(s.take(k)) <= seq_sum(s),
        seq_sum(s.take(k)) >= 0,
    decreases s.len(),
{
    if k == s.len() {
        assert(s.take(k) =~= s);
        lemma_sum_nonneg(s);
    } else {
        lemma_prefix_sum_le(s.drop_last(), k);
        assert(s.drop_last().take(k) =~= s.take(k));
    }
}

/// The sum of non-negative integers is non-negative.
proof fn lemma_sum_nonneg(s: Seq<int>)
    requires
        forall|i: int| 0 <= i < s.len() ==> s[i] >= 0,
    ensures
        seq_sum(s) >= 0,
    decreases s.len(),
{
    if s.len() > 0 {
        lemma_sum_nonneg(s.drop_last());
    }
}

/// Total of a list of sizes, or `None` when it does not fit in a `usize`.
pub fn total_size(sizes: &[usize]) -> (r: Option<usize>)
    ensures
        match r {
            Some(t) => t == seq_sum(as_ints(sizes@)),
            None => seq_sum(as_ints(sizes@)) > usize::MAX,
        },
{
    let ghost s = as_ints(sizes@);
    let mut total: usize = 0;
    let mut i: usize = 0;
    while i < sizes.len()
        invariant
            i <= sizes.len(),
            s == as_ints(sizes@),
            total == seq_sum(s.take(i as int)),
        decreases sizes.len() - i,
    {
        assert(s.take(i + 1).drop_last() =~= s.take(i as int));
        match total.checked_add(sizes[i]) {
            Some(t) => {
                total = t;
            },
            None => {
                proof {
                    lemma_prefix_sum_le(s, i + 1);
                }
                return None;
            },
        }
        i += 1;
    }
    assert(s.take(sizes.len() as int) =~= s);
    Some(total)
}

/// The piece of a tensor stacked one slice of `per_layer` elements per layer
/// that belongs to layer `layer`: the half-open range `start..end`.
pub fn layer_range(layer: usize, per_layer: usize) -> (r: (usize, usize))
    requires
        (layer + 1) * per_layer <= usize::MAX,
    ensures
        r.0 == layer * per_layer,
        r.1 == (layer + 1) * per_layer,
        r.1 == r.0 + per_layer,
{
    assert((layer + 1) * per_layer == layer * per_layer + per_layer) by (nonlinear_arith);
    assert(layer * per_layer >= 0) by (nonlinear_arith);
    let start = layer * per_layer;
    (start, start + per_layer)
}

/// The pieces of distinct layers of a stacked tensor do not overlap, and the
/// piece of every layer below `num_layers` lies inside a tensor of
/// `num_layers * per_layer` elements.
pub proof fn lemma_layer_ranges(num_layers: nat, per_layer: nat, l1: nat, l2: nat)
    requires
        l1 < l2 < num_layers,
    ensures
        (l1 + 1) * per_layer <= l2 * per_layer,
        (l2 + 1) * per_layer <= num_layers * per_layer,
{
    assert((l1 + 1) * per_layer <= l2 * per_layer) by (nonlinear_arith)
        requires
            l1 + 1 <= l2,
    ;
    assert((l2 + 1) * per_layer <= num_layers * per_layer) by (nonlinear_arith)
        requires
            l2 + 1 <= num_layers,
    ;
}

} // verus!
