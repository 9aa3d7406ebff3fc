//! The tokenizer: a table from token ids to the text of each token, read from
//! a tokenizer file.
//!
//! A tokenizer file is a header of 256 unsigned little-endian 32-bit words
//! (magic number 20240328, version 2, vocabulary size in the third word)
//! followed by one record per token: a length byte, never zero, then that many
//! bytes of UTF-8 text. A token whose bytes are not valid UTF-8 decodes to the
//! empty string.

use vstd::prelude::*;
use vstd::utf8::{decode_utf8, encode_utf8, valid_utf8};

use crate::formats::{le_u32, read_u32_le, HEADER_BYTES};

verus! {

/// Magic number of tokenizer files.
pub const TOKENIZER_MAGIC: u32 = 20240328;

/// Format version of tokenizer files.
pub const TOKENIZER_VERSION: u32 = 2;

/// Why a tokenizer file was refused.
#[derive(Debug, Clone, Copy, PartialEq, Eq, Structural)]
pub enum TokenizerError {
    /// The file is shorter than a header.
    HeaderTooShort,
    /// The first header word is not the tokenizer magic number.
    BadMagic,
    /// The second header word is not the supported version.
    BadVersion,
    /// The file ends where the length byte of a token should be.
    MissingTokenLength,
    /// A token's length byte is zero.
    EmptyToken,
    /// The file ends inside a token's bytes.
    TruncatedToken,
}

/// The byte strings of `n` token records starting at `pos` in `b`, or what
/// is wrong with the first bad one.
pub open spec fn token_records(b: Seq<u8>, pos: int, n: nat) -> Result<Seq<Seq<u8>>, TokenizerError>
    decreases n,
{
    if n == 0 {
        Ok(Seq::empty())
    } else if pos >= b.len() {
        Err(TokenizerError::MissingTokenLength)
    } else if b[pos] == 0 {
        Err(TokenizerError::EmptyToken)
    } else if pos + 1 + b[pos] > b.len() {
        Err(TokenizerError::TruncatedToken)
    } else {
        let rec = b.subrange(pos + 1, pos + 1 + b[pos]);
        match token_records(b, pos + 1 + b[pos], (n - 1) as nat) {
            Ok(rest) => Ok(seq![rec] + rest),
            Err(e) => Err(e),
        }
    }
}

/// The bytes of token records `recs`: for each, its length as one byte, then
/// its bytes.
pub open spec fn encode_records(recs: Seq<Seq<u8>>) -> Seq<u8>
    decreases recs.len(),
{
    if recs.len() == 0 {
        Seq::empty()
    } else {
        seq![recs[0].len() as u8] + recs[0] + encode_records(recs.drop_first())
    }
}

/// Token records that a tokenizer file can hold: each between 1 and 255 bytes.
pub open spec fn storable_records(recs: Seq<Seq<u8>>) -> bool {
    forall|i: int| 0 <= i < recs.len() ==> 0 < #[trigger] recs[i].len() < 256
}

/// Reading records is the inverse of writing them. Records read successfully
/// are `n` storable records whose encoding is exactly the bytes they were
/// read from; and bytes that hold the encoding of `n` storable records read
/// back as those records, whatever follows them.
pub proof fn lemma_records_round_trip(b: Seq<u8>, pos: int, recs: Seq<Seq<u8>>)
    requires
        0 <= pos <= b.len(),
    ensures
        token_records(b, pos, recs.len()) is Ok ==> {
            let got = token_records(b, pos, recs.len())->Ok_0;
            &&& got.len() == recs.len()
            &&& storable_records(got)
            &&& pos + encode_records(got).len() <= b.len()
            &&& b.subrange(pos, pos + encode_records(got).len()) == encode_records(got)
        },
        storable_records(recs) && pos + encode_records(recs).len() <= b.len() && b.subrange(
            pos,
            pos + encode_records(recs).len(),
        ) == encode_records(recs) ==> token_records(b, pos, recs.len()) == Ok::<
            Seq<Seq<u8>>,
            TokenizerError,
        >(recs),
    decreases recs.len(),
{
    if recs.len() == 0 {
        assert(recs =~= Seq::<Seq<u8>>::empty());
        assert(b.subrange(pos, pos) =~= Seq::<u8>::empty());
    } else {
        let n = recs.len();
        let rest = recs.drop_first();
        // reading direction
        if pos < b.len() && b[pos] != 0 && pos + 1 + b[pos] <= b.len() {
            let len = b[pos] as int;
            let next = pos + 1 + len;
            lemma_records_round_trip(b, next, rest);
            if token_records(b, pos, n) is Ok {
                let got = token_records(b, pos, n)->Ok_0;
                let rec = b.subrange(pos + 1, next);
                let tail = token_records(b, next, (n - 1) as nat)->Ok_0;
                assert(got =~= seq![rec] + tail);
                assert(got.drop_first() =~= tail);
                assert(got[0] == rec);
                assert forall|i: int| 0 <= i < got.len() implies 0 < #[trigger] got[i].len() < 256 by {
                    if i > 0 {
                        assert(got[i] == tail[i - 1]);
                    }
                }
                let e = encode_records(got);
                let et = encode_records(tail);
                assert(e == seq![rec.len() as u8] + rec + et);
                assert(b.subrange(pos, pos + e.len()) =~= e) by {
                    assert(b.subrange(pos, pos + e.len()) =~= seq![b[pos]] + b.subrange(pos + 1, next)
                        + b.subrange(next, next + et.len()));
                }
            }
        }
        // writing direction
        if storable_records(recs) && pos + encode_records(recs).len() <= b.len() && b.subrange(
            pos,
            pos + encode_records(recs).len(),
        ) == encode_records(recs) {
            let r0 = recs[0];
            let e = encode_records(recs);
            let er = encode_records(rest);
            let next = pos + 1 + r0.len();
            assert(e == seq![r0.len() as u8] + r0 + er);
            assert(b[pos] == e[0]);
            assert(b[pos] == r0.len());
            assert(b.subrange(pos + 1, next) =~= r0) by {
                assert forall|i: int| 0 <= i < r0.len() implies b.subrange(pos + 1, next)[i] == r0[i] by {
                    assert(b[pos + 1 + i] == b.subrange(pos, pos + e.len())[1 + i]);
                    assert(e[1 + i] == r0[i]);
                }
            }
            assert(storable_records(rest)) by {
                assert forall|i: int| 0 <= i < rest.len() implies 0 < #[trigger] rest[i].len() < 256 by {
                    assert(rest[i] == recs[i + 1]);
                }
            }
            assert(b.subrange(next, next + er.len()) =~= er) by {
                assert forall|i: int| 0 <= i < er.len() implies b.subrange(next, next + er.len())[i]
                    == er[i] by {
                    assert(b[next + i] == b.subrange(pos, pos + e.len())[1 + r0.len() + i]);
                    assert(e[1 + r0.len() + i] == er[i]);
                }
            }
            lemma_records_round_trip(b, next, rest);
            assert(seq![r0] + rest =~= recs);
        }
    }
}

/// Number of tokens the header of tokenizer file `b` announces.
pub open spec fn announced_vocab(b: Seq<u8>) -> int {
    le_u32(b, 8)
}

/// The byte strings of the tokens of tokenizer file `b`, or why it is refused.
pub open spec fn tokenizer_file(b: Seq<u8>) -> Result<Seq<Seq<u8>>, TokenizerError> {
    if b.len() < HEADER_BYTES {
        Err(TokenizerError::HeaderTooShort)
    } else if le_u32(b, 0) != TOKENIZER_MAGIC {
        Err(TokenizerError::BadMagic)
    } else if le_u32(b, 4) != TOKENIZER_VERSION {
        Err(TokenizerError::BadVersion)
    } else {
        token_records(b, HEADER_BYTES as int, announced_vocab(b) as nat)
    }
}

/// The text of a token with bytes `bytes`: their UTF-8 decoding, or the empty
/// text when they are not valid UTF-8.
pub open spec fn token_text(bytes: Seq<u8>) -> Seq<char> {
    if valid_utf8(bytes) {
        decode_utf8(bytes)
    } else {
        Seq::empty()
    }
}

/// A tokenizer file whose header announces `recs.len()` tokens and whose
/// header is followed by the encoding of storable records `recs` holds
/// exactly those records, whatever follows them.
pub proof fn lemma_tokenizer_file_of_records(b: Seq<u8>, recs: Seq<Seq<u8>>)
    requires
        b.len() >= HEADER_BYTES,
        le_u32(b, 0) == TOKENIZER_MAGIC,
        le_u32(b, 4) == TOKENIZER_VERSION,
        announced_vocab(b) == recs.len(),
        storable_records(recs),
        HEADER_BYTES + encode_records(recs).len() <= b.len(),
        b.subrange(HEADER_BYTES as int, HEADER_BYTES + encode_records(recs).len()) == encode_records(recs),
    ensures
        tokenizer_file(b) == Ok::<Seq<Seq<u8>>, TokenizerError>(recs),
{
    lemma_records_round_trip(b, HEADER_BYTES as int, recs);
}

/// `acc` followed by the records of `rest`, or the error of `rest`.
pub open spec fn prepend_records(acc: Seq<Seq<u8>>, rest: Result<Seq<Seq<u8>>, TokenizerError>) -> Result<
    Seq<Seq<u8>>,
    TokenizerError,
> {
    match rest {
        Ok(r) => Ok(acc + r),
        Err(e) => Err(e),
    }
}

/// `String::from_utf8` of std. Its documentation: it fails exactly when the
/// bytes are not valid UTF-8; on success the string holds exactly those bytes.
#[verifier::external_body]
fn string_from_utf8(bytes: Vec<u8>) -> (r: Option<String>)
    ensures
        r is Some <==> valid_utf8(bytes@),
        r matches Some(s) ==> encode_utf8(s@) == bytes@,
{
    String::from_utf8(bytes).ok()
}

/// Maps token ids to the text of the tokens.
pub struct Tokenizer {
    /// Vocabulary size announced by the tokenizer file.
    pub vocab_size: u32,
    /// Text of each token, indexed by token id.
    pub token_table: Vec<String>,
    /// Whether the table is loaded (it is emptied by `free`).
    pub init_ok: bool,
}

impl Tokenizer {
    /// The tokenizer holds the tokens of tokenizer file `b`.
    pub open spec fn loaded_from(&self, b: Seq<u8>) -> bool {
        &&& tokenizer_file(b) is Ok
        &&& self.init_ok
        &&& self.vocab_size == announced_vocab(b)
        &&& self.token_table.len() == tokenizer_file(b)->Ok_0.len()
        &&& forall|i: int|
            0 <= i < self.token_table.len() ==> #[trigger] self.token_table[i]@ == token_text(
                tokenizer_file(b)->Ok_0[i],
            )
    }

    /// The text that `decode` returns for `token_id`.
    pub open spec fn decoded(&self, token_id: u32) -> Seq<char> {
        if self.init_ok && token_id < self.token_table.len() {
            self.token_table[token_id as int]@
        } else {
            Seq::empty()
        }
    }

    /// `after` is `before` once `free` has run.
    pub open spec fn freed(before: &Tokenizer, after: &Tokenizer) -> bool {
        &&& !after.init_ok
        &&& after.vocab_size == before.vocab_size
        &&& before.init_ok ==> after.token_table.len() == 0
        &&& !before.init_ok ==> after.token_table@ == before.token_table@
    }

    /// Reads a tokenizer from the contents of a tokenizer file.
    pub fn new(file: &[u8]) -> (r: Result<Tokenizer, TokenizerError>)
        ensures
            r is Ok <==> tokenizer_file(file@) is Ok,
            r matches Err(e) ==> tokenizer_file(file@) == Err::<Seq<Seq<u8>>, TokenizerError>(e),
            r matches Ok(t) ==> t.loaded_from(file@),
    {
        if file.len() < HEADER_BYTES {
            return Err(TokenizerError::HeaderTooShort);
        }
        if read_u32_le(file, 0) != TOKENIZER_MAGIC {
            return Err(TokenizerError::BadMagic);
        }
        if read_u32_le(file, 4) != TOKENIZER_VERSION {
            return Err(TokenizerError::BadVersion);
        }
        let vocab_size = read_u32_le(file, 8);
        let ghost b = file@;
        let mut token_table: Vec<String> = Vec::new();
        let mut pos: usize = HEADER_BYTES;
        let mut i: u32 = 0;
        let ghost mut recs: Seq<Seq<u8>> = Seq::empty();
        while i < vocab_size
            invariant
                b == file@,
                HEADER_BYTES <= pos <= file.len(),
                i <= vocab_size,
                vocab_size == announced_vocab(b),
                token_table.len() == i,
                recs.len() == i,
                forall|j: int|
                    0 <= j < i ==> #[trigger] token_table[j]@ == token_text(recs[j]),
                tokenizer_file(b) == prepend_records(
                    recs,
                    token_records(b, pos as int, (vocab_size - i) as nat),
                ),
            decreases vocab_size - i,
        {
            let ghost m = (vocab_size - i) as nat;
            if pos >= file.len() {
                assert(prepend_records(recs, token_records(b, pos as int, m)) == Err::<
                    Seq<Seq<u8>>,
                    TokenizerError,
                >(TokenizerError::MissingTokenLength));
                return Err(TokenizerError::MissingTokenLength);
            }
            let len = file[pos] as usize;
            if len == 0 {
                return Err(TokenizerError::EmptyToken);
            }
            if len > file.len() - pos - 1 {
                return Err(TokenizerError::TruncatedToken);
            }
            let start = pos + 1;
            let token_bytes = vstd::slice::slice_to_vec(vstd::slice::slice_subrange(file, start, start + len));
            let ghost rec = b.subrange(start as int, start + len);
            let text = match string_from_utf8(token_bytes) {
                Some(s) => {
                    proof {
                        vstd::utf8::encode_utf8_decode_utf8(s@);
                    }
                    s
                },
                None => String::new(),
            };
            assert(text@ == token_text(rec));
            token_table.push(text);
            proof {
                let rest = token_records(b, start + len, (m - 1) as nat);
                assert(token_records(b, pos as int, m) == match rest {
                    Ok(r) => Ok(seq![rec] + r),
                    Err(e) => Err(e),
                });
                if rest is Ok {
                    assert(recs + (seq![rec] + rest->Ok_0) =~= recs.push(rec) + rest->Ok_0);
                }
                recs = recs.push(rec);
            }
            pos = start + len;
            i += 1;
        }
        assert(recs + Seq::<Seq<u8>>::empty() =~= recs);
        Ok(Tokenizer { vocab_size, token_table, init_ok: true })
    }

    /// The text of token `token_id`; the empty text when the id is outside the
    /// table or the table was freed.
    pub fn decode(&self, token_id: u32) -> (r: &str)
        ensures
            r@ == self.decoded(token_id),
    {
        proof {
            reveal_strlit("");
        }
        if !self.init_ok {
            ""
        } else if (token_id as usize) < self.token_table.len() {
            self.token_table[token_id as usize].as_str()
        } else {
            ""
        }
    }

    /// Releases the token table.
    pub fn free(&mut self)
        ensures
            Tokenizer::freed(old(self), final(self)),
    {
        if self.init_ok {
            self.token_table.clear();
            self.init_ok = false;
        }
    }
}

/// Once the table is freed, every token id decodes to the empty text.
pub proof fn lemma_decode_after_free(before: Tokenizer, after: Tokenizer, token_id: u32)
    requires
        Tokenizer::freed(&before, &after),
    ensures
        after.decoded(token_id) == Seq::<char>::empty(),
{
}

/// A tokenizer read from a file decodes each id of its table to the text of
/// that token's record in the file, and every other id to the empty text.
pub proof fn lemma_decode_reads_file(t: Tokenizer, b: Seq<u8>, token_id: u32)
    requires
        t.loaded_from(b),
    ensures
        token_id < tokenizer_file(b)->Ok_0.len() ==> t.decoded(token_id) == token_text(
            tokenizer_file(b)->Ok_0[token_id as int],
        ),
        token_id >= tokenizer_file(b)->Ok_0.len() ==> t.decoded(token_id) == Seq::<char>::empty(),
{
}

} // verus!
