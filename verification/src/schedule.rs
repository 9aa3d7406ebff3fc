//! Decisions of the training loop: how many validation batches to run, and at
//! each step whether to estimate the validation loss, whether to sample text
//! from the model, and whether to take a training step.

use vstd::prelude::*;

verus! {

/// Number of validation batches per evaluation: as many whole batches of
/// `batch_size * seq_len` tokens as the validation data holds, but at most
/// `val_max_steps`.
pub fn val_num_batches(num_tokens: usize, batch_size: usize, seq_len: usize, val_max_steps: usize) -> (r: usize)
    requires
        0 < batch_size * seq_len <= usize::MAX,
    ensures
        r == if num_tokens as int / (batch_size * seq_len) > val_max_steps {
            val_max_steps as int
        } else {
            num_tokens as int / (batch_size * seq_len)
        },
{
    let n = num_tokens / (batch_size * seq_len);
    if n > val_max_steps {
        val_max_steps
    } else {
        n
    }
}

/// What the training loop does at one step.
#[derive(Debug, Clone, Copy, PartialEq, Eq, Structural)]
pub struct StepPlan {
    /// Estimate the loss on the validation data.
    pub evaluate: bool,
    /// Generate text from the model.
    pub sample: bool,
    /// Train on the next batch (every step but the last).
    pub train: bool,
}

/// The plan of step `step` of a run over `num_batches` training batches; the
/// steps run from 0 to `num_batches`, and the last one only evaluates and
/// samples.
pub open spec fn spec_step_plan(step: usize, num_batches: usize, val_loss_every: usize, sample_every: usize) -> StepPlan {
    let last = step == num_batches;
    StepPlan {
        evaluate: step % val_loss_every == 0 || last,
        sample: (step > 0 && step % sample_every == 0) || last,
        train: !last,
    }
}

/// The plan of step `step` of a run over `num_batches` training batches.
pub fn step_plan(step: usize, num_batches: usize, val_loss_every: usize, sample_every: usize) -> (r: StepPlan)
    requires
        val_loss_every > 0,
        step > 0 ==> sample_every > 0,
    ensures
        r == spec_step_plan(step, num_batches, val_loss_every, sample_every),
        r.train <==> step != num_batches,
        r.evaluate <==> step == num_batches || (step as int) % (val_loss_every as int) == 0,
        r.sample <==> step == num_batches || (step > 0 && (step as int) % (sample_every as int) == 0),
{
    let last = step == num_batches;
    let evaluate = step % val_loss_every == 0 || last;
    let sample = (step > 0 && step % sample_every == 0) || last;
    StepPlan { evaluate, sample, train: !last }
}

/// The run opens with a validation estimate, trains on every step but the
/// last, and closes with a validation estimate and a sample.
pub proof fn lemma_run_shape(num_batches: usize, val_loss_every: usize, sample_every: usize, step: usize)
    requires
        val_loss_every > 0,
        step <= num_batches,
    ensures
        spec_step_plan(0, num_batches, val_loss_every, sample_every).evaluate,
        spec_step_plan(num_batches, num_batches, val_loss_every, sample_every).evaluate,
        spec_step_plan(num_batches, num_batches, val_loss_every, sample_every).sample,
        !spec_step_plan(num_batches, num_batches, val_loss_every, sample_every).train,
        step < num_batches ==> spec_step_plan(step, num_batches, val_loss_every, sample_every).train,
{
    assert(0usize % val_loss_every == 0) by {
        vstd::arithmetic::div_mod::lemma_small_mod(0, val_loss_every as nat);
    }
}

/// `n` is a whole multiple of `d`.
pub open spec fn is_multiple(n: int, d: int) -> bool {
    exists|j: int| j >= 0 && #[trigger] (j * d) == n
}

/// `n` is a multiple of `d` exactly when `n % d == 0`.
proof fn lemma_multiple_iff(n: int, d: int)
    requires
        d > 0,
        n >= 0,
    ensures
        n % d == 0 <==> is_multiple(n, d),
{
    if n % d == 0 {
        vstd::arithmetic::div_mod::lemma_fundamental_div_mod(n, d);
        let j = n / d;
        vstd::arithmetic::div_mod::lemma_div_pos_is_pos(n, d);
        assert(j * d == n) by (nonlinear_arith)
            requires
                n == d * j + n % d,
                n % d == 0,
        ;
        assert(j >= 0);
    }
    if is_multiple(n, d) {
        let j = choose|j: int| j >= 0 && #[trigger] (j * d) == n;
        vstd::arithmetic::div_mod::lemma_mod_multiples_basic(j, d);
    }
}

/// Before the last step, the loop estimates the validation loss exactly at
/// the multiples of `val_loss_every` and samples exactly at the positive
/// multiples of `sample_every`, and it trains at every such step; so every
/// step `k * val_loss_every` below the last evaluates and every step
/// `k * sample_every` (k >= 1) below the last samples.
pub proof fn lemma_periodic_evaluation_and_sampling(
    num_batches: usize,
    val_loss_every: usize,
    sample_every: usize,
    step: usize,
    k: nat,
)
    requires
        val_loss_every > 0,
        sample_every > 0,
        step < num_batches,
    ensures
        spec_step_plan(step, num_batches, val_loss_every, sample_every).evaluate <==> is_multiple(
            step as int,
            val_loss_every as int,
        ),
        spec_step_plan(step, num_batches, val_loss_every, sample_every).sample <==> step > 0
            && is_multiple(step as int, sample_every as int),
        spec_step_plan(step, num_batches, val_loss_every, sample_every).train,
        k * val_loss_every < num_batches ==> spec_step_plan(
            (k * val_loss_every) as usize,
            num_batches,
            val_loss_every,
            sample_every,
        ).evaluate,
        k >= 1 && k * sample_every < num_batches ==> spec_step_plan(
            (k * sample_every) as usize,
            num_batches,
            val_loss_every,
            sample_every,
        ).sample,
{
    lemma_multiple_iff(step as int, val_loss_every as int);
    lemma_multiple_iff(step as int, sample_every as int);
    let ki = k as int;
    if k * val_loss_every < num_batches {
        vstd::arithmetic::div_mod::lemma_mod_multiples_basic(ki, val_loss_every as int);
        assert(ki * val_loss_every >= 0) by (nonlinear_arith)
            requires
                ki >= 0,
        ;
    }
    if k >= 1 && k * sample_every < num_batches {
        vstd::arithmetic::div_mod::lemma_mod_multiples_basic(ki, sample_every as int);
        assert(ki * sample_every > 0) by (nonlinear_arith)
            requires
                ki >= 1,
                sample_every > 0,
        ;
    }
}

/// The number of validation batches never exceeds `val_max_steps`, and the
/// batches it counts fit in the validation data.
pub proof fn lemma_val_batches_fit(num_tokens: usize, batch_size: usize, seq_len: usize, val_max_steps: usize)
    requires
        0 < batch_size * seq_len,
    ensures
        ({
            let q = num_tokens as int / (batch_size * seq_len);
            let r = if q > val_max_steps { val_max_steps as int } else { q };
            &&& r <= val_max_steps
            &&& r * (batch_size * seq_len) <= num_tokens
            &&& (r < val_max_steps ==> (r + 1) * (batch_size * seq_len) > num_tokens)
        }),
{
    let n = batch_size * seq_len;
    let q = num_tokens as int / n;
    vstd::arithmetic::div_mod::lemma_fundamental_div_mod(num_tokens as int, n);
    vstd::arithmetic::div_mod::lemma_mod_bound(num_tokens as int, n);
    let r = if q > val_max_steps { val_max_steps as int } else { q };
    assert(r * n <= num_tokens && (r == q ==> (r + 1) * n > num_tokens)) by (nonlinear_arith)
        requires
            num_tokens == n * q + num_tokens as int % n,
            0 <= num_tokens as int % n < n,
            r <= q,
            r >= 0,
            n > 0,
    ;
}

/// The logits of generation step `t` (counting from 1) in the output buffer of
/// the first sequence: row `t - 1` of a (T, Vp) buffer, cut to the first
/// `vocab_size` entries.
pub fn generation_logits_range(t: usize, padded_vocab_size: usize, vocab_size: usize) -> (r: (usize, usize))
    requires
        t >= 1,
        (t - 1) * padded_vocab_size + vocab_size <= usize::MAX,
    ensures
        r.0 == (t - 1) * padded_vocab_size,
        r.1 == (t - 1) * padded_vocab_size + vocab_size,
{
    assert((t - 1) * padded_vocab_size >= 0) by (nonlinear_arith)
        requires
            t >= 1,
    ;
    let start = (t - 1) * padded_vocab_size;
    (start, start + vocab_size)
}

} // verus!
