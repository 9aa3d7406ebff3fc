use llmrs::formats::HEADER_BYTES;
use llmrs::tokenizer::{Tokenizer, TokenizerError, TOKENIZER_MAGIC, TOKENIZER_VERSION};

fn tokenizer_file(words: &[u32], records: &[&[u8]]) -> Vec<u8> {
    let mut b = vec![0u8; HEADER_BYTES];
    for (i, w) in words.iter().enumerate() {
        b[4 * i..4 * i + 4].copy_from_slice(&w.to_le_bytes());
    }
    for r in records {
        b.push(r.len() as u8);
        b.extend_from_slice(r);
    }
    b
}

fn sample() -> Vec<u8> {
    tokenizer_file(
        &[TOKENIZER_MAGIC, TOKENIZER_VERSION, 4],
        &[b"a", " the".as_bytes(), "h\u{e9}".as_bytes(), &[0xff, 0xfe]],
    )
}

#[test]
fn reads_every_token() {
    let t = Tokenizer::new(&sample()).unwrap();
    assert!(t.init_ok);
    assert_eq!(t.vocab_size, 4);
    assert_eq!(t.token_table.len(), 4);
}

#[test]
fn decodes_tokens_by_id() {
    let t = Tokenizer::new(&sample()).unwrap();
    assert_eq!(t.decode(0), "a");
    assert_eq!(t.decode(1), " the");
    assert_eq!(t.decode(2), "h\u{e9}");
}

#[test]
fn invalid_utf8_token_decodes_to_empty_text() {
    let t = Tokenizer::new(&sample()).unwrap();
    assert_eq!(t.decode(3), "");
}

#[test]
fn unknown_id_decodes_to_empty_text() {
    let t = Tokenizer::new(&sample()).unwrap();
    assert_eq!(t.decode(4), "");
    assert_eq!(t.decode(u32::MAX), "");
}

#[test]
fn free_empties_the_table() {
    let mut t = Tokenizer::new(&sample()).unwrap();
    t.free();
    assert!(!t.init_ok);
    assert!(t.token_table.is_empty());
    assert_eq!(t.vocab_size, 4);
    for id in 0..5 {
        assert_eq!(t.decode(id), "");
    }
    t.free();
    assert!(!t.init_ok);
}

#[test]
fn trailing_bytes_are_ignored() {
    let mut file = sample();
    file.extend_from_slice(&[9, 9, 9]);
    let t = Tokenizer::new(&file).unwrap();
    assert_eq!(t.token_table.len(), 4);
}

#[test]
fn refuses_short_header() {
    assert_eq!(Tokenizer::new(&[0u8; 10]).err(), Some(TokenizerError::HeaderTooShort));
}

#[test]
fn tokenizer_refuses_bad_magic() {
    let file = tokenizer_file(&[1, TOKENIZER_VERSION, 0], &[]);
    assert_eq!(Tokenizer::new(&file).err(), Some(TokenizerError::BadMagic));
}

#[test]
fn tokenizer_refuses_bad_version() {
    let file = tokenizer_file(&[TOKENIZER_MAGIC, 1, 0], &[]);
    assert_eq!(Tokenizer::new(&file).err(), Some(TokenizerError::BadVersion));
}

#[test]
fn refuses_missing_token() {
    let file = tokenizer_file(&[TOKENIZER_MAGIC, TOKENIZER_VERSION, 2], &[b"x"]);
    assert_eq!(Tokenizer::new(&file).err(), Some(TokenizerError::MissingTokenLength));
}

#[test]
fn refuses_empty_token() {
    let file = tokenizer_file(&[TOKENIZER_MAGIC, TOKENIZER_VERSION, 2], &[b"x", b""]);
    assert_eq!(Tokenizer::new(&file).err(), Some(TokenizerError::EmptyToken));
}

#[test]
fn refuses_truncated_token() {
    let mut file = tokenizer_file(&[TOKENIZER_MAGIC, TOKENIZER_VERSION, 1], &[]);
    file.extend_from_slice(&[3, b'a', b'b']);
    assert_eq!(Tokenizer::new(&file).err(), Some(TokenizerError::TruncatedToken));
}

#[test]
fn empty_vocabulary_is_accepted() {
    let file = tokenizer_file(&[TOKENIZER_MAGIC, TOKENIZER_VERSION, 0], &[]);
    let t = Tokenizer::new(&file).unwrap();
    assert_eq!(t.decode(0), "");
}
