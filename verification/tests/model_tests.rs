use llmrs::config::GPT2Config;
use llmrs::formats::{HeaderError, HEADER_BYTES};
use llmrs::model::{load_checkpoint, plan_activations, tokens_in_vocab, ActivationPlan, CheckpointError, CHECKPOINT_MAGIC, CHECKPOINT_VERSION};

fn checkpoint(words: &[i32], num_floats: usize) -> Vec<u8> {
    let mut b = vec![0u8; HEADER_BYTES];
    for (i, w) in words.iter().enumerate() {
        b[4 * i..4 * i + 4].copy_from_slice(&w.to_le_bytes());
    }
    b.extend(std::iter::repeat(0u8).take(4 * num_floats));
    b
}

const TINY: [i32; 8] = [CHECKPOINT_MAGIC, CHECKPOINT_VERSION, 4, 5, 1, 1, 4, 8];

#[test]
fn loads_tiny_checkpoint() {
    // Vp*C + T*C + L*(12*C*C + 13*C) + 2*C = 32 + 16 + 244 + 8
    let (config, n) = load_checkpoint(&checkpoint(&TINY, 300)).unwrap();
    assert_eq!(
        config,
        GPT2Config { max_seq_len: 4, vocab_size: 5, padded_vocab_size: 8, num_layers: 1, num_heads: 1, channels: 4 }
    );
    assert_eq!(n, 300);
    // extra data after the parameters is accepted
    assert!(load_checkpoint(&checkpoint(&TINY, 301)).is_ok());
}

#[test]
fn refuses_missing_parameters() {
    assert_eq!(
        load_checkpoint(&checkpoint(&TINY, 299)),
        Err(CheckpointError::MissingParameters { needed: 300, found: 299 })
    );
}

#[test]
fn refuses_overflowing_sizes() {
    let words = [CHECKPOINT_MAGIC, CHECKPOINT_VERSION, 4, 5, i32::MAX, 1, i32::MAX, 8];
    assert_eq!(load_checkpoint(&checkpoint(&words, 0)), Err(CheckpointError::SizesOverflow));
}

#[test]
fn refuses_bad_header() {
    let mut words = TINY;
    words[0] = 1;
    assert_eq!(
        load_checkpoint(&checkpoint(&words, 300)),
        Err(CheckpointError::Header(HeaderError::BadMagic(1)))
    );
    let mut words = TINY;
    words[1] = 2;
    assert_eq!(
        load_checkpoint(&checkpoint(&words, 300)),
        Err(CheckpointError::Header(HeaderError::BadVersion(2)))
    );
    assert_eq!(load_checkpoint(&[0u8; 3]), Err(CheckpointError::Header(HeaderError::TooShort)));
}

#[test]
fn token_ids_must_be_in_vocabulary() {
    assert!(tokens_in_vocab(&[0, 4, 2], 5));
    assert!(!tokens_in_vocab(&[0, 5], 5));
    assert!(!tokens_in_vocab(&[-1], 5));
    assert!(tokens_in_vocab(&[], 0));
}

#[test]
fn negative_header_word_wraps_to_huge_size() {
    let mut words = TINY;
    words[2] = -1;
    assert_eq!(load_checkpoint(&checkpoint(&words, 300)), Err(CheckpointError::SizesOverflow));
}

#[test]
fn activations_are_allocated_once_per_shape() {
    assert_eq!(plan_activations(None, 4, 64), ActivationPlan::Allocate);
    assert_eq!(plan_activations(Some((4, 64)), 4, 64), ActivationPlan::Reuse);
    assert_eq!(plan_activations(Some((4, 64)), 4, 32), ActivationPlan::ShapeMismatch);
    assert_eq!(plan_activations(Some((4, 64)), 2, 64), ActivationPlan::ShapeMismatch);
}
