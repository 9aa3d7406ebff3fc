//! Batches of training data drawn from a token dataset.
//!
//! A dataset file is a header (magic number 20240520, version 1, token count
//! in the third word) followed by the tokens as little-endian 16-bit numbers.
//! The tokens are cut into consecutive chunks of `batch_size * seq_len + 1`
//! tokens (a trailing partial chunk is never used); a batch is a chunk without
//! its last token as inputs and without its first token as targets.

use vstd::prelude::*;

use crate::formats::{
    HeaderError, header_error, i32_to_usize, le_i32, parse_header_data, spec_u16_seq, u16_payload, usize_of_i32,
    HEADER_BYTES,
};

verus! {

/// Magic number of token dataset files.
pub const DATASET_MAGIC: i32 = 20240520;

/// Format version of token dataset files.
pub const DATASET_VERSION: i32 = 1;

/// Why a token dataset was refused.
#[derive(Debug, Clone, Copy, PartialEq, Eq, Structural)]
pub enum DataLoaderError {
    /// The header is missing or has the wrong magic number or version.
    Header(HeaderError),
    /// The header announces no tokens.
    NoTokens,
    /// The header announces `expected` tokens but the file holds `found`.
    TokenCountMismatch { expected: usize, found: usize },
}

/// Number of tokens the header of dataset file `b` announces: its third word
/// read as a `usize`, so that a negative word wraps around to a huge count.
pub open spec fn announced_tokens(b: Seq<u8>) -> int {
    usize_of_i32(le_i32(b, 8))
}

/// Number of whole tokens after the header of dataset file `b`.
pub open spec fn stored_tokens(b: Seq<u8>) -> int {
    (b.len() - HEADER_BYTES) / 2
}

/// What `DataLoader::new` finds wrong with dataset file `b`, if anything.
pub open spec fn dataset_error(b: Seq<u8>) -> Option<DataLoaderError> {
    match header_error(b, DATASET_MAGIC, DATASET_VERSION) {
        Some(e) => Some(DataLoaderError::Header(e)),
        None => if announced_tokens(b) == 0 {
            Some(DataLoaderError::NoTokens)
        } else if stored_tokens(b) != announced_tokens(b) {
            Some(
                DataLoaderError::TokenCountMismatch {
                    expected: announced_tokens(b) as usize,
                    found: stored_tokens(b) as usize,
                },
            )
        } else {
            None
        },
    }
}

/// The tokens of dataset file `b`.
pub open spec fn dataset_tokens(b: Seq<u8>) -> Seq<u16> {
    spec_u16_seq(b.subrange(HEADER_BYTES as int, b.len() as int))
}

/// Index of the chunk that a loader with cursor `cursor` and `num_batches`
/// whole chunks cuts its next batch from.
pub open spec fn chunk_index(cursor: int, num_batches: int) -> int {
    if cursor == num_batches {
        0
    } else {
        cursor
    }
}

/// Cursor of a loader with `num_batches` whole chunks after `j` batches were
/// handed out since it was created or reset.
pub open spec fn cursor_after(num_batches: int, j: nat) -> int
    decreases j,
{
    if j == 0 {
        0
    } else {
        chunk_index(cursor_after(num_batches, (j - 1) as nat), num_batches) + 1
    }
}

/// The loader cycles through its batches in order: counting from 0 the
/// batches handed out since the loader was created or reset, batch `j` is cut
/// from chunk `j mod num_batches`.
pub proof fn lemma_batches_cycle(num_batches: int, j: nat)
    requires
        num_batches > 0,
    ensures
        chunk_index(cursor_after(num_batches, j), num_batches) == (j as int) % num_batches,
        0 <= cursor_after(num_batches, j) <= num_batches,
    decreases j,
{
    if j > 0 {
        lemma_batches_cycle(num_batches, (j - 1) as nat);
        let p = (j - 1) as int;
        let ji = j as int;
        vstd::arithmetic::div_mod::lemma_fundamental_div_mod(p, num_batches);
        vstd::arithmetic::div_mod::lemma_mod_bound(p, num_batches);
        let q = p / num_batches;
        let m = p % num_batches;
        if m + 1 == num_batches {
            assert(ji == num_batches * (q + 1)) by (nonlinear_arith)
                requires
                    p == num_batches * q + m,
                    m + 1 == num_batches,
                    ji == p + 1,
            ;
            vstd::arithmetic::div_mod::lemma_mod_multiples_basic(q + 1, num_batches);
            assert((q + 1) * num_batches == num_batches * (q + 1)) by (nonlinear_arith);
        } else {
            assert(0 <= m + 1 < num_batches);
            assert(ji == q * num_batches + (m + 1)) by (nonlinear_arith)
                requires
                    p == num_batches * q + m,
                    ji == p + 1,
            ;
            vstd::arithmetic::div_mod::lemma_fundamental_div_mod_converse(ji, num_batches, q, m + 1);
        }
    }
}

/// Hands out batches of a token dataset, in order, starting over after the
/// last whole batch.
pub struct DataLoader {
    /// Batch size.
    pub batch_size: usize,
    /// Sequence length.
    pub seq_len: usize,
    /// The tokens of the dataset.
    pub tokens: Vec<u16>,
    /// Index of the chunk that the next batch is cut from, unless every chunk
    /// has been handed out (then it equals `num_batches`).
    pub next_chunk: usize,
    /// Tokens per chunk: `batch_size * seq_len + 1`.
    pub size_per_batch: usize,
    /// Number of whole chunks in the dataset.
    pub num_batches: usize,
    /// Number of tokens in the dataset.
    pub num_tokens: usize,
}

impl DataLoader {
    /// The tokens of the dataset.
    pub open spec fn token_seq(&self) -> Seq<u16> {
        self.tokens@
    }

    /// Number of chunks handed out since the loader was created or reset,
    /// counted within the current pass over the data.
    pub open spec fn cursor(&self) -> int {
        self.next_chunk as int
    }

    /// The loader's fields agree with each other.
    pub open spec fn wf(&self) -> bool {
        &&& self.size_per_batch == self.batch_size * self.seq_len + 1
        &&& self.num_tokens == self.token_seq().len()
        &&& self.num_batches == self.token_seq().len() as int / (self.size_per_batch as int)
        &&& 0 <= self.cursor() <= self.num_batches
    }

    /// Index of the chunk the next batch is cut from.
    pub open spec fn next_index(&self) -> int {
        chunk_index(self.cursor(), self.num_batches as int)
    }

    /// Chunk `k` of the dataset.
    pub open spec fn chunk(&self, k: int) -> Seq<u16> {
        self.token_seq().subrange(k * self.size_per_batch, (k + 1) * self.size_per_batch)
    }

    /// Inputs of batch `k`: chunk `k` without its last token.
    pub open spec fn batch_inputs(&self, k: int) -> Seq<i32> {
        self.chunk(k).take(self.size_per_batch - 1).map_values(|x: u16| x as i32)
    }

    /// Targets of batch `k`: chunk `k` without its first token.
    pub open spec fn batch_targets(&self, k: int) -> Seq<i32> {
        self.chunk(k).skip(1).map_values(|x: u16| x as i32)
    }

    /// `self` and `other` hold the same data and settings.
    pub open spec fn same_data(&self, other: &DataLoader) -> bool {
        &&& self.batch_size == other.batch_size
        &&& self.seq_len == other.seq_len
        &&& self.size_per_batch == other.size_per_batch
        &&& self.num_batches == other.num_batches
        &&& self.num_tokens == other.num_tokens
        &&& self.token_seq() == other.token_seq()
    }

    /// Creates a loader over the dataset file `file`, cutting batches of
    /// `batch_size` sequences of `seq_len` tokens.
    pub fn new(file: &[u8], batch_size: usize, seq_len: usize) -> (r: Result<DataLoader, DataLoaderError>)
        requires
            batch_size * seq_len + 1 <= usize::MAX,
        ensures
            r is Ok <==> dataset_error(file@) is None,
            r matches Err(e) ==> dataset_error(file@) == Some(e),
            r matches Ok(l) ==> {
                &&& l.wf()
                &&& l.cursor() == 0
                &&& l.batch_size == batch_size
                &&& l.seq_len == seq_len
                &&& l.token_seq() == dataset_tokens(file@)
                &&& l.num_tokens == announced_tokens(file@)
            },
    {
        let size_per_batch = batch_size * seq_len + 1;
        let (header, payload) = match parse_header_data(file, DATASET_MAGIC, DATASET_VERSION) {
            Ok(parsed) => parsed,
            Err(e) => {
                return Err(DataLoaderError::Header(e));
            },
        };
        let ntoks = i32_to_usize(header[2]);
        if ntoks == 0 {
            return Err(DataLoaderError::NoTokens);
        }
        let tokens = u16_payload(payload);
        if tokens.len() != ntoks {
            return Err(DataLoaderError::TokenCountMismatch { expected: ntoks, found: tokens.len() });
        }
        let num_batches = tokens.len() / size_per_batch;
        Ok(
            DataLoader {
                batch_size,
                seq_len,
                tokens,
                next_chunk: 0,
                size_per_batch,
                num_batches,
                num_tokens: ntoks,
            },
        )
    }

    /// Starts over from the first batch.
    pub fn reset(&mut self)
        requires
            old(self).wf(),
        ensures
            final(self).wf(),
            final(self).same_data(old(self)),
            final(self).cursor() == 0,
    {
        self.next_chunk = 0;
    }

    /// The next batch, as (inputs, targets); after the last whole batch it
    /// starts over from the first.
    pub fn next_batch(&mut self) -> (r: (Vec<i32>, Vec<i32>))
        requires
            old(self).wf(),
            old(self).num_batches > 0,
        ensures
            final(self).wf(),
            final(self).same_data(old(self)),
            final(self).cursor() == old(self).next_index() + 1,
            r.0@ == old(self).batch_inputs(old(self).next_index()),
            r.1@ == old(self).batch_targets(old(self).next_index()),
            r.0.len() == old(self).batch_size * old(self).seq_len,
            r.1.len() == old(self).batch_size * old(self).seq_len,
            forall|i: int| 0 <= i < r.0.len() - 1 ==> #[trigger] r.1[i] == r.0[i + 1],
            forall|i: int|
                0 <= i < r.0.len() ==> #[trigger] r.0[i] == old(self).tokens[old(self).next_index()
                    * old(self).size_per_batch + i] as i32,
            forall|i: int|
                0 <= i < r.1.len() ==> #[trigger] r.1[i] == old(self).tokens[old(self).next_index()
                    * old(self).size_per_batch + i + 1] as i32,
    {
        if self.next_chunk == self.num_batches {
            self.reset();
        }
        let k = self.next_chunk;
        let spb = self.size_per_batch;
        let ghost n = self.tokens@.len();
        assert((k + 1) * spb <= n) by (nonlinear_arith)
            requires
                k < self.num_batches,
                self.num_batches == n as int / (spb as int),
                spb > 0,
                n >= 0,
        {
            assert(self.num_batches * spb <= n);
            assert((k + 1) * spb <= self.num_batches * spb);
        }
        assert(k * spb + spb == (k + 1) * spb) by (nonlinear_arith);
        assert(k * spb >= 0) by (nonlinear_arith);
        let start = k * spb;
        let end = start + spb;
        let ghost chunk = self.tokens@.subrange(start as int, end as int);
        let mut inputs: Vec<i32> = Vec::new();
        let mut i = start;
        while i < end - 1
            invariant
                start <= i <= end - 1,
                end <= self.tokens@.len(),
                chunk == self.tokens@.subrange(start as int, end as int),
                inputs@ =~= chunk.take(i - start).map_values(|x: u16| x as i32),
            decreases end - 1 - i,
        {
            inputs.push(self.tokens[i] as i32);
            i += 1;
        }
        let mut targets: Vec<i32> = Vec::new();
        let mut j = start + 1;
        while j < end
            invariant
                start + 1 <= j <= end,
                end <= self.tokens@.len(),
                chunk == self.tokens@.subrange(start as int, end as int),
                targets@ =~= chunk.subrange(1, j - start).map_values(|x: u16| x as i32),
            decreases end - j,
        {
            targets.push(self.tokens[j] as i32);
            j += 1;
        }
        assert(chunk.subrange(1, spb as int) =~= chunk.skip(1));
        self.next_chunk = k + 1;
        (inputs, targets)
    }
}

} // verus!
