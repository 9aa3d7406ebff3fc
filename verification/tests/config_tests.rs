use llmrs::config::{GPT2Config, NUM_ACTIVATION_TENSORS, NUM_GRAD_ACT_TENSORS, NUM_PARAMETER_TENSORS};
use llmrs::layout::total_size;

fn gpt2_124m() -> GPT2Config {
    GPT2Config {
        max_seq_len: 1024,
        vocab_size: 50257,
        padded_vocab_size: 50304,
        num_layers: 12,
        num_heads: 12,
        channels: 768,
    }
}

#[test]
fn new_config_is_all_zero() {
    let c = GPT2Config::new();
    assert_eq!(c, GPT2Config {
        max_seq_len: 0,
        vocab_size: 0,
        padded_vocab_size: 0,
        num_layers: 0,
        num_heads: 0,
        channels: 0,
    });
    assert_eq!(c.get_params_sizes(), [0; NUM_PARAMETER_TENSORS]);
}

#[test]
fn params_sizes_of_gpt2_small() {
    let c = gpt2_124m();
    assert!(c.fits_params());
    let s = c.get_params_sizes();
    assert_eq!(
        s,
        [
            38633472, 786432, 9216, 9216, 21233664, 27648, 7077888, 9216, 9216, 9216, 28311552, 36864,
            28311552, 9216, 768, 768
        ]
    );
}

#[test]
fn num_parameters_of_gpt2_small_matches_closed_form() {
    let c = gpt2_124m();
    let total = total_size(&c.get_params_sizes()).unwrap();
    assert_eq!(total, 124475904);
    let (vp, t, l, ch) = (50304usize, 1024usize, 12usize, 768usize);
    assert_eq!(total, vp * ch + t * ch + l * (12 * ch * ch + 13 * ch) + 2 * ch);
}

#[test]
fn act_sizes_of_gpt2_small() {
    let c = gpt2_124m();
    assert!(c.fits_activations(4, 64));
    let s = c.get_act_sizes(4, 64);
    assert_eq!(s.len(), NUM_ACTIVATION_TENSORS);
    assert_eq!(
        s,
        [
            196608, 2359296, 3072, 3072, 2359296, 2359296, 2359296, 2359296, 2359296, 3072, 3072, 9437184,
            9437184, 2359296, 2359296, 196608, 256, 256, 256, 7077888, 12877824
        ]
    );
}

#[test]
fn scratch_width_takes_largest_of_three() {
    // 3C = 12 is the largest of 3C, NH*T = 6 and Vp = 8.
    let c = GPT2Config { max_seq_len: 8, vocab_size: 5, padded_vocab_size: 8, num_layers: 1, num_heads: 2, channels: 4 };
    assert_eq!(c.get_act_sizes(1, 3)[20], 3 * 12);
    // NH*T = 40 is the largest.
    let c = GPT2Config { max_seq_len: 8, vocab_size: 5, padded_vocab_size: 8, num_layers: 1, num_heads: 20, channels: 1 };
    assert_eq!(c.get_act_sizes(1, 2)[20], 2 * 40);
}

#[test]
fn grad_act_sizes_of_gpt2_small() {
    let c = gpt2_124m();
    assert!(c.fits_grad_activations(4, 64));
    let s = c.get_grad_act_sizes(4, 64);
    assert_eq!(s.len(), NUM_GRAD_ACT_TENSORS);
    assert_eq!(s, [786432, 196608, 196608]);
}

#[test]
fn fit_checks_reject_overflowing_shapes() {
    let mut c = gpt2_124m();
    c.channels = usize::MAX / 2;
    assert!(!c.fits_params());
    let c = gpt2_124m();
    assert!(!c.fits_activations(usize::MAX, 2));
    assert!(!c.fits_grad_activations(usize::MAX / 2, 3));
    // a zero factor after an overflowing one still counts as overflow
    assert!(!c.fits_activations(usize::MAX, 0) || c.num_layers == 0);
}

#[test]
fn layer_views_fit_in_gpt2_small_tensors() {
    let c = gpt2_124m();
    let a = c.get_act_sizes(4, 64);
    let p = c.get_params_sizes();
    let l = c.num_layers - 1;
    assert!((l + 1) * 4 * 64 * 768 <= a[1]);
    assert!((l + 1) * 4 * 12 * 64 * 64 <= a[5]);
    assert!((l + 1) * 3 * 768 * 768 <= p[4]);
    assert!((l + 1) * 768 * 4 * 768 <= p[12]);
}
