use llmrs::dataloader::{DataLoader, DataLoaderError, DATASET_MAGIC, DATASET_VERSION};
use llmrs::formats::{HeaderError, HEADER_BYTES};

fn dataset(words: &[i32], tokens: &[u16]) -> Vec<u8> {
    let mut b = vec![0u8; HEADER_BYTES];
    for (i, w) in words.iter().enumerate() {
        b[4 * i..4 * i + 4].copy_from_slice(&w.to_le_bytes());
    }
    for t in tokens {
        b.extend_from_slice(&t.to_le_bytes());
    }
    b
}

fn tokens(n: u16) -> Vec<u16> {
    (0..n).collect()
}

fn range(a: i32, b: i32) -> Vec<i32> {
    (a..b).collect()
}

#[test]
fn new_counts_whole_batches() {
    let file = dataset(&[DATASET_MAGIC, DATASET_VERSION, 20], &tokens(20));
    let l = DataLoader::new(&file, 2, 3).unwrap();
    assert_eq!(l.size_per_batch, 7);
    assert_eq!(l.num_batches, 2);
    assert_eq!(l.num_tokens, 20);
    assert_eq!(l.batch_size, 2);
    assert_eq!(l.seq_len, 3);
}

#[test]
fn batches_come_in_order_and_wrap_around() {
    let file = dataset(&[DATASET_MAGIC, DATASET_VERSION, 20], &tokens(20));
    let mut l = DataLoader::new(&file, 2, 3).unwrap();
    assert_eq!(l.next_batch(), (range(0, 6), range(1, 7)));
    assert_eq!(l.next_batch(), (range(7, 13), range(8, 14)));
    // the trailing six tokens never form a batch: the loader starts over
    assert_eq!(l.next_batch(), (range(0, 6), range(1, 7)));
    assert_eq!(l.next_batch(), (range(7, 13), range(8, 14)));
}

#[test]
fn reset_starts_over() {
    let file = dataset(&[DATASET_MAGIC, DATASET_VERSION, 20], &tokens(20));
    let mut l = DataLoader::new(&file, 2, 3).unwrap();
    l.next_batch();
    l.reset();
    assert_eq!(l.next_batch(), (range(0, 6), range(1, 7)));
}

#[test]
fn targets_are_inputs_shifted_by_one() {
    let toks: Vec<u16> = (0..50).map(|i| (i * 37 % 101) as u16).collect();
    let file = dataset(&[DATASET_MAGIC, DATASET_VERSION, 50], &toks);
    let mut l = DataLoader::new(&file, 3, 4).unwrap();
    for _ in 0..7 {
        let (inputs, targets) = l.next_batch();
        assert_eq!(inputs.len(), 12);
        assert_eq!(targets.len(), 12);
        assert_eq!(&inputs[1..], &targets[..11]);
    }
}

#[test]
fn batch_j_is_chunk_j_mod_num_batches() {
    let file = dataset(&[DATASET_MAGIC, DATASET_VERSION, 30], &tokens(30));
    let mut l = DataLoader::new(&file, 1, 4).unwrap();
    assert_eq!(l.num_batches, 6);
    for j in 0..20 {
        let (inputs, _) = l.next_batch();
        assert_eq!(inputs[0], ((j % 6) * 5) as i32);
    }
}

#[test]
fn large_token_values_convert_exactly() {
    let file = dataset(&[DATASET_MAGIC, DATASET_VERSION, 3], &[65535, 50256, 1]);
    let mut l = DataLoader::new(&file, 1, 2).unwrap();
    assert_eq!(l.next_batch(), (vec![65535, 50256], vec![50256, 1]));
}

#[test]
fn dataset_refuses_bad_magic() {
    let file = dataset(&[1, DATASET_VERSION, 3], &[1, 2, 3]);
    assert!(matches!(DataLoader::new(&file, 1, 1), Err(DataLoaderError::Header(HeaderError::BadMagic(1)))));
}

#[test]
fn dataset_refuses_bad_version() {
    let file = dataset(&[DATASET_MAGIC, 2, 3], &[1, 2, 3]);
    assert!(matches!(DataLoader::new(&file, 1, 1), Err(DataLoaderError::Header(HeaderError::BadVersion(2)))));
}

#[test]
fn dataset_refuses_short_file() {
    let file = vec![0u8; 100];
    assert!(matches!(DataLoader::new(&file, 1, 1), Err(DataLoaderError::Header(HeaderError::TooShort))));
}

#[test]
fn refuses_empty_dataset() {
    let file = dataset(&[DATASET_MAGIC, DATASET_VERSION, 0], &[]);
    assert!(matches!(DataLoader::new(&file, 1, 1), Err(DataLoaderError::NoTokens)));
}

#[test]
fn refuses_token_count_mismatch() {
    let file = dataset(&[DATASET_MAGIC, DATASET_VERSION, 10], &tokens(9));
    assert!(matches!(
        DataLoader::new(&file, 1, 1),
        Err(DataLoaderError::TokenCountMismatch { expected: 10, found: 9 })
    ));
}

#[test]
fn negative_token_count_reads_as_huge() {
    let file = dataset(&[DATASET_MAGIC, DATASET_VERSION, -1], &tokens(4));
    assert!(matches!(
        DataLoader::new(&file, 1, 1),
        Err(DataLoaderError::TokenCountMismatch { expected: usize::MAX, found: 4 })
    ));
}
