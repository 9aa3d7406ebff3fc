//! Model hyperparameters and the sizes of the tensors they determine.

use vstd::prelude::*;

use crate::layout::{as_ints, seq_sum};

verus! {

/// Number of parameter tensors of the model.
pub const NUM_PARAMETER_TENSORS: usize = 16;

/// Number of activation tensors of the model.
pub const NUM_ACTIVATION_TENSORS: usize = 21;

/// Number of activation-gradient buffers of the backward pass.
pub const NUM_GRAD_ACT_TENSORS: usize = 3;

/// GPT-2 hyperparameters.
#[derive(Debug, Clone, Copy, PartialEq, Eq, Structural)]
pub struct GPT2Config {
    /// Maximum sequence length.
    pub max_seq_len: usize,
    /// Vocabulary size.
    pub vocab_size: usize,
    /// Padded vocabulary size.
    pub padded_vocab_size: usize,
    /// Number of layers.
    pub num_layers: usize,
    /// Number of attention heads.
    pub num_heads: usize,
    /// Number of channels.
    pub channels: usize,
}

impl GPT2Config {
    /// Every product computed by `get_params_sizes` fits in a `usize`.
    pub open spec fn params_fit(self) -> bool {
        let c = self.channels as int;
        let l = self.num_layers as int;
        &&& self.padded_vocab_size * c <= usize::MAX
        &&& self.max_seq_len * c <= usize::MAX
        &&& l * c <= usize::MAX
        &&& 3 * c <= usize::MAX
        &&& 4 * c <= usize::MAX
        &&& l * (3 * c) <= usize::MAX
        &&& l * (3 * c) * c <= usize::MAX
        &&& l * c * c <= usize::MAX
        &&& l * (4 * c) <= usize::MAX
        &&& l * (4 * c) * c <= usize::MAX
        &&& l * c * (4 * c) <= usize::MAX
    }

    /// Sizes of the parameter tensors, in the order wte, wpe, ln1w, ln1b,
    /// qkvw, qkvb, attprojw, attprojb, ln2w, ln2b, fcw, fcb, fcprojw,
    /// fcprojb, lnfw, lnfb.
    pub open spec fn spec_params_sizes(self) -> Seq<int> {
        let c = self.channels as int;
        let l = self.num_layers as int;
        seq![
            self.padded_vocab_size * c,
            self.max_seq_len * c,
            l * c,
            l * c,
            l * (3 * c) * c,
            l * (3 * c),
            l * c * c,
            l * c,
            l * c,
            l * c,
            l * (4 * c) * c,
            l * (4 * c),
            l * c * (4 * c),
            l * c,
            c,
            c,
        ]
    }

    /// Every product computed by `get_act_sizes(batch_size, seq_len)` fits in a `usize`.
    pub open spec fn act_fit(self, batch_size: usize, seq_len: usize) -> bool {
        let b = batch_size as int;
        let t = seq_len as int;
        let c = self.channels as int;
        let l = self.num_layers as int;
        let nh = self.num_heads as int;
        &&& b * t <= usize::MAX
        &&& b * t * c <= usize::MAX
        &&& l * b <= usize::MAX
        &&& l * b * t <= usize::MAX
        &&& l * b * t * c <= usize::MAX
        &&& l * b * nh <= usize::MAX
        &&& l * b * nh * t <= usize::MAX
        &&& l * b * nh * t * t <= usize::MAX
        &&& l * b * t * 4 <= usize::MAX
        &&& l * b * t * 4 * c <= usize::MAX
        &&& l * b * t * 3 <= usize::MAX
        &&& l * b * t * 3 * c <= usize::MAX
        &&& 3 * c <= usize::MAX
        &&& nh * t <= usize::MAX
        &&& b * t * self.scratch_width(seq_len) <= usize::MAX
    }

    /// Width of the scratch buffer per position: max(3C, NH * T, Vp).
    pub open spec fn scratch_width(self, seq_len: usize) -> int {
        let a = 3 * self.channels;
        let nt = self.num_heads * seq_len;
        let m = if nt >= self.padded_vocab_size { nt } else { self.padded_vocab_size as int };
        if a >= m { a } else { m }
    }

    /// Sizes of the activation tensors, in the order encoded, ln1, ln1_mean,
    /// ln1_rstd, atty, att, attproj, residual2, ln2, ln2_mean, ln2_rstd, fch,
    /// fch_gelu, fcproj, residual3, lnf, lnf_mean, lnf_rstd, losses, qkvr,
    /// output.
    pub open spec fn spec_act_sizes(self, batch_size: usize, seq_len: usize) -> Seq<int> {
        let b = batch_size as int;
        let t = seq_len as int;
        let c = self.channels as int;
        let l = self.num_layers as int;
        let nh = self.num_heads as int;
        seq![
            b * t * c,
            l * b * t * c,
            l * b * t,
            l * b * t,
            l * b * t * c,
            l * b * nh * t * t,
            l * b * t * c,
            l * b * t * c,
            l * b * t * c,
            l * b * t,
            l * b * t,
            l * b * t * 4 * c,
            l * b * t * 4 * c,
            l * b * t * c,
            l * b * t * c,
            b * t * c,
            b * t,
            b * t,
            b * t,
            l * b * t * 3 * c,
            b * t * self.scratch_width(seq_len),
        ]
    }

    /// Every product computed by `get_grad_act_sizes(batch_size, seq_len)` fits in a `usize`.
    pub open spec fn grad_act_fit(self, batch_size: usize, seq_len: usize) -> bool {
        let b = batch_size as int;
        let t = seq_len as int;
        let c = self.channels as int;
        let nh = self.num_heads as int;
        &&& b * t <= usize::MAX
        &&& b * t * 4 <= usize::MAX
        &&& b * t * 4 * c <= usize::MAX
        &&& b * nh <= usize::MAX
        &&& b * nh * t <= usize::MAX
        &&& b * nh * t * t <= usize::MAX
        &&& b * t * c <= usize::MAX
    }

    /// Sizes of the activation-gradient buffers: bt4c (B, T, 4C), preatt
    /// (B, NH, T, T) and residual3 (B, T, C).
    pub open spec fn spec_grad_act_sizes(self, batch_size: usize, seq_len: usize) -> Seq<int> {
        let b = batch_size as int;
        let t = seq_len as int;
        let c = self.channels as int;
        let nh = self.num_heads as int;
        seq![b * t * 4 * c, b * nh * t * t, b * t * c]
    }

    /// A configuration with every hyperparameter zero.
    pub fn new() -> (r: Self)
        ensures
            r.max_seq_len == 0,
            r.vocab_size == 0,
            r.padded_vocab_size == 0,
            r.num_layers == 0,
            r.num_heads == 0,
            r.channels == 0,
    {
        GPT2Config {
            max_seq_len: 0,
            vocab_size: 0,
            padded_vocab_size: 0,
            num_layers: 0,
            num_heads: 0,
            channels: 0,
        }
    }

    /// Whether `get_params_sizes` can compute every size.
    pub fn fits_params(&self) -> (r: bool)
        ensures
            r == self.params_fit(),
    {
        let c = self.channels;
        let l = self.num_layers;
        if self.padded_vocab_size.checked_mul(c).is_none() || self.max_seq_len.checked_mul(c).is_none() {
            return false;
        }
        let lc = match l.checked_mul(c) {
            Some(v) => v,
            None => return false,
        };
        let c3 = match 3usize.checked_mul(c) {
            Some(v) => v,
            None => return false,
        };
        let c4 = match 4usize.checked_mul(c) {
            Some(v) => v,
            None => return false,
        };
        let l3c = match l.checked_mul(c3) {
            Some(v) => v,
            None => return false,
        };
        let l4c = match l.checked_mul(c4) {
            Some(v) => v,
            None => return false,
        };
        l3c.checked_mul(c).is_some() && lc.checked_mul(c).is_some() && l4c.checked_mul(c).is_some()
            && lc.checked_mul(c4).is_some()
    }

    /// Whether `get_act_sizes(batch_size, seq_len)` can compute every size.
    pub fn fits_activations(&self, batch_size: usize, seq_len: usize) -> (r: bool)
        ensures
            r == self.act_fit(batch_size, seq_len),
    {
        let c = self.channels;
        let l = self.num_layers;
        let nh = self.num_heads;
        let bt = match batch_size.checked_mul(seq_len) {
            Some(v) => v,
            None => return false,
        };
        if bt.checked_mul(c).is_none() {
            return false;
        }
        let lb = match l.checked_mul(batch_size) {
            Some(v) => v,
            None => return false,
        };
        let lbt = match lb.checked_mul(seq_len) {
            Some(v) => v,
            None => return false,
        };
        if lbt.checked_mul(c).is_none() {
            return false;
        }
        let lbnh = match lb.checked_mul(nh) {
            Some(v) => v,
            None => return false,
        };
        let lbnht = match lbnh.checked_mul(seq_len) {
            Some(v) => v,
            None => return false,
        };
        if lbnht.checked_mul(seq_len).is_none() {
            return false;
        }
        let lbt4 = match lbt.checked_mul(4) {
            Some(v) => v,
            None => return false,
        };
        if lbt4.checked_mul(c).is_none() {
            return false;
        }
        let lbt3 = match lbt.checked_mul(3) {
            Some(v) => v,
            None => return false,
        };
        if lbt3.checked_mul(c).is_none() {
            return false;
        }
        let c3 = match 3usize.checked_mul(c) {
            Some(v) => v,
            None => return false,
        };
        let nt = match nh.checked_mul(seq_len) {
            Some(v) => v,
            None => return false,
        };
        let inner = if nt >= self.padded_vocab_size { nt } else { self.padded_vocab_size };
        let width = if c3 >= inner { c3 } else { inner };
        bt.checked_mul(width).is_some()
    }

    /// Whether `get_grad_act_sizes(batch_size, seq_len)` can compute every size.
    pub fn fits_grad_activations(&self, batch_size: usize, seq_len: usize) -> (r: bool)
        ensures
            r == self.grad_act_fit(batch_size, seq_len),
    {
        let c = self.channels;
        let nh = self.num_heads;
        let bt = match batch_size.checked_mul(seq_len) {
            Some(v) => v,
            None => return false,
        };
        let bt4 = match bt.checked_mul(4) {
            Some(v) => v,
            None => return false,
        };
        if bt4.checked_mul(c).is_none() {
            return false;
        }
        let bnh = match batch_size.checked_mul(nh) {
            Some(v) => v,
            None => return false,
        };
        let bnht = match bnh.checked_mul(seq_len) {
            Some(v) => v,
            None => return false,
        };
        bnht.checked_mul(seq_len).is_some() && bt.checked_mul(c).is_some()
    }

    /// Sizes of the parameter tensors.
    pub fn get_params_sizes(&self) -> (r: [usize; NUM_PARAMETER_TENSORS])
        requires
            self.params_fit(),
        ensures
            r@.len() == NUM_PARAMETER_TENSORS,
            forall|i: int| 0 <= i < NUM_PARAMETER_TENSORS ==> r@[i] == self.spec_params_sizes()[i],
            as_ints(r@) == self.spec_params_sizes(),
    {
        let ch = self.channels;
        let num_layers = self.num_layers;
        let wte = self.padded_vocab_size * ch;
        let wpe = self.max_seq_len * ch;
        let lc = num_layers * ch;
        let qkvw = num_layers * (3 * ch) * ch;
        let qkvb = num_layers * (3 * ch);
        let attprojw = num_layers * ch * ch;
        let fcw = num_layers * (4 * ch) * ch;
        let fcb = num_layers * (4 * ch);
        let fcprojw = num_layers * ch * (4 * ch);
        let r = [wte, wpe, lc, lc, qkvw, qkvb, attprojw, lc, lc, lc, fcw, fcb, fcprojw, lc, ch, ch];
        assert(as_ints(r@) =~= self.spec_params_sizes());
        r
    }

    /// Sizes of the activation tensors for a batch of `batch_size` sequences
    /// of `seq_len` tokens.
    pub fn get_act_sizes(&self, batch_size: usize, seq_len: usize) -> (r: [usize; NUM_ACTIVATION_TENSORS])
        requires
            self.act_fit(batch_size, seq_len),
        ensures
            r@.len() == NUM_ACTIVATION_TENSORS,
            forall|i: int|
                0 <= i < NUM_ACTIVATION_TENSORS ==> r@[i] == self.spec_act_sizes(batch_size, seq_len)[i],
            as_ints(r@) == self.spec_act_sizes(batch_size, seq_len),
    {
        let ch = self.channels;
        let num_layers = self.num_layers;
        let nh = self.num_heads;
        let padded_vocab_size = self.padded_vocab_size;
        let bt = batch_size * seq_len;
        let btc = bt * ch;
        let lbt = num_layers * batch_size * seq_len;
        let lbtc = lbt * ch;
        let att = num_layers * batch_size * nh * seq_len * seq_len;
        let lbt4c = lbt * 4 * ch;
        let lbt3c = lbt * 3 * ch;
        let three_c = 3 * ch;
        let nt = nh * seq_len;
        let inner = if nt >= padded_vocab_size { nt } else { padded_vocab_size };
        let width = if three_c >= inner { three_c } else { inner };
        let output = bt * width;
        let r = [
            btc, lbtc, lbt, lbt, lbtc, att, lbtc, lbtc, lbtc, lbt, lbt, lbt4c, lbt4c, lbtc, lbtc,
            btc, bt, bt, bt, lbt3c, output,
        ];
        assert(as_ints(r@) =~= self.spec_act_sizes(batch_size, seq_len));
        r
    }

    /// Sizes of the activation-gradient buffers.
    pub fn get_grad_act_sizes(&self, batch_size: usize, seq_len: usize) -> (r: [usize; NUM_GRAD_ACT_TENSORS])
        requires
            self.grad_act_fit(batch_size, seq_len),
        ensures
            r@.len() == NUM_GRAD_ACT_TENSORS,
            forall|i: int|
                0 <= i < NUM_GRAD_ACT_TENSORS ==> r@[i] == self.spec_grad_act_sizes(batch_size, seq_len)[i],
            as_ints(r@) == self.spec_grad_act_sizes(batch_size, seq_len),
            r@[0] == batch_size * seq_len * 4 * self.channels,
            r@[1] == batch_size * self.num_heads * seq_len * seq_len,
            r@[2] == batch_size * seq_len * self.channels,
    {
        let ch = self.channels;
        let nh = self.num_heads;
        let bt4c = batch_size * seq_len * 4 * ch;
        let preatt = batch_size * nh * seq_len * seq_len;
        let residual3 = batch_size * seq_len * ch;
        let r = [bt4c, preatt, residual3];
        assert(as_ints(r@) =~= self.spec_grad_act_sizes(batch_size, seq_len));
        r
    }
}

/// The parameter count of a configuration: with C channels, L layers, a
/// padded vocabulary of Vp and a maximum sequence length of maxT, the model has
/// Vp*C + maxT*C + L*(12*C*C + 13*C) + 2*C parameters.
pub proof fn lemma_num_parameters(config: GPT2Config)
    ensures
        seq_sum(config.spec_params_sizes()) == config.padded_vocab_size * config.channels
            + config.max_seq_len * config.channels + config.num_layers * (12 * config.channels
            * config.channels + 13 * config.channels) + 2 * config.channels,
{
    let s = config.spec_params_sizes();
    reveal_with_fuel(seq_sum, 17);
    let c = config.channels as int;
    let l = config.num_layers as int;
    assert(s.len() == 16);
    assert(seq_sum(s) == s[0] + s[1] + s[2] + s[3] + s[4] + s[5] + s[6] + s[7] + s[8] + s[9]
        + s[10] + s[11] + s[12] + s[13] + s[14] + s[15]) by {
        assert(s.take(16) =~= s);
    }
    assert(l * (3 * c) * c + l * c * c + l * (4 * c) * c + l * c * (4 * c) + l * (3 * c)
        + l * (4 * c) + 6 * (l * c) == l * (12 * c * c + 13 * c)) by (nonlinear_arith);
}

/// The piece of layer `l` of a tensor that stacks one piece of `per_layer`
/// elements for each of `num_layers` layers ends inside the tensor.
proof fn lemma_layer_in_stack(num_layers: int, per_layer: int, l: int)
    requires
        0 <= l < num_layers,
        per_layer >= 0,
    ensures
        (l + 1) * per_layer <= num_layers * per_layer,
{
    assert((l + 1) * per_layer <= num_layers * per_layer) by (nonlinear_arith)
        requires
            l + 1 <= num_layers,
            per_layer >= 0,
    ;
}

/// The per-layer views that the forward and backward passes take lie inside
/// their tensors: for every layer `l` below the number of layers, the piece
/// `l * p .. (l + 1) * p` of each stacked activation tensor (p elements per
/// layer: B*T*C, B*T, B*NH*T*T, B*T*4C or B*T*3C) and of each stacked parameter
/// tensor (C, 3C*C, 3C, C*C, 4C*C, 4C or C*4C) ends inside that tensor.
pub proof fn lemma_layer_views_fit(config: GPT2Config, batch_size: usize, seq_len: usize, l: int)
    requires
        0 <= l < config.num_layers,
    ensures
        ({
            let a = config.spec_act_sizes(batch_size, seq_len);
            let b = batch_size as int;
            let t = seq_len as int;
            let c = config.channels as int;
            let nh = config.num_heads as int;
            &&& (l + 1) * (b * t * c) <= a[1]
            &&& (l + 1) * (b * t) <= a[2]
            &&& (l + 1) * (b * t) <= a[3]
            &&& (l + 1) * (b * t * c) <= a[4]
            &&& (l + 1) * (b * nh * t * t) <= a[5]
            &&& (l + 1) * (b * t * c) <= a[6]
            &&& (l + 1) * (b * t * c) <= a[7]
            &&& (l + 1) * (b * t * c) <= a[8]
            &&& (l + 1) * (b * t) <= a[9]
            &&& (l + 1) * (b * t) <= a[10]
            &&& (l + 1) * (b * t * 4 * c) <= a[11]
            &&& (l + 1) * (b * t * 4 * c) <= a[12]
            &&& (l + 1) * (b * t * c) <= a[13]
            &&& (l + 1) * (b * t * c) <= a[14]
            &&& (l + 1) * (b * t * 3 * c) <= a[19]
        }),
        ({
            let p = config.spec_params_sizes();
            let c = config.channels as int;
            &&& (l + 1) * c <= p[2]
            &&& (l + 1) * c <= p[3]
            &&& (l + 1) * (3 * c * c) <= p[4]
            &&& (l + 1) * (3 * c) <= p[5]
            &&& (l + 1) * (c * c) <= p[6]
            &&& (l + 1) * c <= p[7]
            &&& (l + 1) * c <= p[8]
            &&& (l + 1) * c <= p[9]
            &&& (l + 1) * (4 * c * c) <= p[10]
            &&& (l + 1) * (4 * c) <= p[11]
            &&& (l + 1) * (c * 4 * c) <= p[12]
            &&& (l + 1) * c <= p[13]
        }),
{
    let b = batch_size as int;
    let t = seq_len as int;
    let c = config.channels as int;
    let nh = config.num_heads as int;
    let nl = config.num_layers as int;
    assert(b * t >= 0 && b * t * c >= 0 && b * nh * t * t >= 0 && b * t * 4 * c >= 0 && b * t * 3 * c >= 0
        && c * c >= 0) by (nonlinear_arith)
        requires
            b >= 0,
            t >= 0,
            c >= 0,
            nh >= 0,
    ;
    lemma_layer_in_stack(nl, b * t * c, l);
    lemma_layer_in_stack(nl, b * t, l);
    lemma_layer_in_stack(nl, b * nh * t * t, l);
    lemma_layer_in_stack(nl, b * t * 4 * c, l);
    lemma_layer_in_stack(nl, b * t * 3 * c, l);
    lemma_layer_in_stack(nl, c, l);
    lemma_layer_in_stack(nl, 3 * c * c, l);
    lemma_layer_in_stack(nl, 3 * c, l);
    lemma_layer_in_stack(nl, c * c, l);
    lemma_layer_in_stack(nl, 4 * c * c, l);
    lemma_layer_in_stack(nl, 4 * c, l);
    assert(nl * (b * t * c) == nl * b * t * c && nl * (b * t) == nl * b * t && nl * (b * nh * t * t)
        == nl * b * nh * t * t && nl * (b * t * 4 * c) == nl * b * t * 4 * c && nl * (b * t * 3 * c)
        == nl * b * t * 3 * c && nl * (3 * c * c) == nl * (3 * c) * c && nl * (c * c) == nl * c * c
        && nl * (4 * c * c) == nl * (4 * c) * c && nl * (4 * c * c) == nl * c * (4 * c)
        && c * 4 * c == 4 * c * c) by (nonlinear_arith);
}

/// The scratch width is the largest of 3C (a row of q, k, v), NH * T (a row
/// of attention scores of all heads) and Vp (a row of logits): at least each
/// of them and equal to one of them.
pub proof fn lemma_scratch_width(config: GPT2Config, seq_len: usize)
    ensures
        config.scratch_width(seq_len) >= 3 * config.channels,
        config.scratch_width(seq_len) >= config.num_heads * seq_len,
        config.scratch_width(seq_len) >= config.padded_vocab_size,
        config.scratch_width(seq_len) == 3 * config.channels || config.scratch_width(seq_len)
            == config.num_heads * seq_len || config.scratch_width(seq_len) == config.padded_vocab_size,
{
}

/// The activation tensors have the shapes their names give them: encoded and
/// lnf are (B, T, C); lnf_mean, lnf_rstd and losses are (B, T); ln1, atty,
/// attproj, residual2, ln2, fcproj and residual3 stack a (B, T, C) tensor per
/// layer; ln1_mean, ln1_rstd, ln2_mean and ln2_rstd stack a (B, T) tensor per
/// layer; att stacks a (B, NH, T, T) tensor per layer; fch and fch_gelu are
/// four times, and qkvr three times, as wide as ln1; and the output buffer
/// holds a row of max(3C, NH*T, Vp) per position, enough for the (B, T, 3C)
/// projections, the (B, NH, T, T) scores and the (B, T, Vp) logits.
pub proof fn lemma_act_shapes(config: GPT2Config, batch_size: usize, seq_len: usize)
    ensures
        ({
            let a = config.spec_act_sizes(batch_size, seq_len);
            let b = batch_size as int;
            let t = seq_len as int;
            let c = config.channels as int;
            let nh = config.num_heads as int;
            let nl = config.num_layers as int;
            &&& a.len() == NUM_ACTIVATION_TENSORS
            &&& a[0] == b * t * c
            &&& a[15] == a[0]
            &&& a[16] == b * t
            &&& a[17] == a[16]
            &&& a[18] == a[16]
            &&& a[1] == nl * a[0]
            &&& a[4] == a[1] && a[6] == a[1] && a[7] == a[1] && a[8] == a[1] && a[13] == a[1] && a[14]
                == a[1]
            &&& a[2] == nl * a[16]
            &&& a[3] == a[2] && a[9] == a[2] && a[10] == a[2]
            &&& a[5] == nl * (b * nh * t * t)
            &&& a[11] == 4 * a[1]
            &&& a[12] == a[11]
            &&& a[19] == 3 * a[1]
            &&& a[20] == a[16] * config.scratch_width(seq_len)
            &&& a[20] >= b * t * (3 * c)
            &&& a[20] >= b * nh * t * t
            &&& a[20] >= b * t * config.padded_vocab_size
        }),
{
    let b = batch_size as int;
    let t = seq_len as int;
    let c = config.channels as int;
    let nh = config.num_heads as int;
    let nl = config.num_layers as int;
    let w = config.scratch_width(seq_len);
    let vp = config.padded_vocab_size as int;
    lemma_scratch_width(config, seq_len);
    assert(b * t >= 0) by (nonlinear_arith)
        requires
            b >= 0,
            t >= 0,
    ;
    assert(nl * (b * t * c) == nl * b * t * c && nl * (b * t) == nl * b * t && nl * (b * nh * t * t)
        == nl * b * nh * t * t && nl * b * t * 4 * c == 4 * (nl * b * t * c) && nl * b * t * 3 * c == 3 * (
    nl * b * t * c)) by (nonlinear_arith);
    assert((b * t) * w >= b * t * (3 * c)) by (nonlinear_arith)
        requires
            b * t >= 0,
            w >= 3 * c,
    ;
    assert((b * t) * w >= b * t * (nh * t) && b * t * (nh * t) == b * nh * t * t) by (nonlinear_arith)
        requires
            b * t >= 0,
            w >= nh * t,
    ;
    assert((b * t) * w >= b * t * vp) by (nonlinear_arith)
        requires
            b * t >= 0,
            w >= vp,
    ;
}

/// The activation-gradient buffers have the shapes of what they hold: bt4c
/// is four times as wide as residual3, residual3 has the (B, T, C) shape of
/// the residual stream (the encoded activations), and preatt holds one T x T
/// score gradient per head of each sequence: as many elements as the
/// attention score products write (T*T per matrix over B*NH matrices), and as
/// one layer's piece of the stacked attention scores.
pub proof fn lemma_grad_act_shapes(config: GPT2Config, batch_size: usize, seq_len: usize)
    ensures
        ({
            let g = config.spec_grad_act_sizes(batch_size, seq_len);
            let a = config.spec_act_sizes(batch_size, seq_len);
            let b = batch_size as int;
            let t = seq_len as int;
            let nh = config.num_heads as int;
            &&& g.len() == NUM_GRAD_ACT_TENSORS
            &&& g[2] == a[0]
            &&& g[0] == 4 * g[2]
            &&& g[1] == b * nh * t * t
            &&& g[1] == (t * t) * (b * nh)
            &&& config.num_layers * g[1] == a[5]
        }),
{
    let b = batch_size as int;
    let t = seq_len as int;
    let c = config.channels as int;
    let nh = config.num_heads as int;
    let nl = config.num_layers as int;
    assert(b * t * 4 * c == 4 * (b * t * c) && b * nh * t * t == (t * t) * (b * nh) && nl * (b * nh * t * t)
        == nl * b * nh * t * t) by (nonlinear_arith);
}

/// The parameter tensors have the shapes their names give them: wte is
/// (Vp, C), wpe is (maxT, C), lnfw and lnfb are (C); the layer norm weights and
/// biases, attprojb and fcprojb stack a (C) vector per layer; attprojw stacks a
/// (C, C) matrix per layer, qkvw three and fcw and fcprojw four times as much;
/// qkvb stacks a (3C) and fcb a (4C) vector per layer.
pub proof fn lemma_param_shapes(config: GPT2Config)
    ensures
        ({
            let p = config.spec_params_sizes();
            let c = config.channels as int;
            let nl = config.num_layers as int;
            &&& p.len() == NUM_PARAMETER_TENSORS
            &&& p[0] == config.padded_vocab_size * c
            &&& p[1] == config.max_seq_len * c
            &&& p[14] == c && p[15] == c
            &&& p[2] == nl * c
            &&& p[3] == p[2] && p[7] == p[2] && p[8] == p[2] && p[9] == p[2] && p[13] == p[2]
            &&& p[6] == nl * (c * c)
            &&& p[4] == 3 * p[6]
            &&& p[10] == 4 * p[6]
            &&& p[12] == 4 * p[6]
            &&& p[5] == 3 * p[2]
            &&& p[11] == 4 * p[2]
        }),
{
    let c = config.channels as int;
    let nl = config.num_layers as int;
    assert(nl * (c * c) == nl * c * c && nl * (3 * c) * c == 3 * (nl * (c * c)) && nl * (4 * c) * c == 4 * (
    nl * (c * c)) && nl * c * (4 * c) == 4 * (nl * (c * c)) && nl * (3 * c) == 3 * (nl * c) && nl * (4 * c)
        == 4 * (nl * c)) by (nonlinear_arith);
}

} // verus!
