//! Binary file formats: the 256-word little-endian header shared by
//! checkpoints, token datasets and tokenizer files, and the little-endian
//! 16-bit token payload of datasets.

use vstd::prelude::*;

verus! {

/// Number of 32-bit words in a file header.
pub const HEADER_LEN: usize = 256;

/// Number of bytes in a file header.
pub const HEADER_BYTES: usize = 1024;

/// The unsigned 32-bit little-endian number stored at `b[i..i + 4]`.
pub open spec fn le_u32(b: Seq<u8>, i: int) -> int {
    b[i] + 256 * b[i + 1] + 65536 * b[i + 2] + 16777216 * b[i + 3]
}

/// The signed (two's complement) 32-bit little-endian number stored at `b[i..i + 4]`.
pub open spec fn le_i32(b: Seq<u8>, i: int) -> int {
    let u = le_u32(b, i);
    if u < 0x8000_0000 {
        u
    } else {
        u - 0x1_0000_0000
    }
}

/// The unsigned 16-bit little-endian number stored at `b[i..i + 2]`.
pub open spec fn le_u16(b: Seq<u8>, i: int) -> int {
    b[i] + 256 * b[i + 1]
}

/// The header of a file as signed words: word `i` is stored at bytes `4i..4i + 4`.
pub open spec fn spec_header_i32(b: Seq<u8>) -> Seq<i32> {
    Seq::new(HEADER_LEN as nat, |i: int| le_i32(b, 4 * i) as i32)
}

/// `b` read as consecutive little-endian 16-bit numbers, a trailing odd byte ignored.
pub open spec fn spec_u16_seq(b: Seq<u8>) -> Seq<u16> {
    Seq::new(b.len() / 2, |i: int| le_u16(b, 2 * i) as u16)
}

/// A signed 32-bit word read as a `usize` the way a cast does: a negative
/// word wraps around to `word + usize::MAX + 1`.
pub open spec fn usize_of_i32(word: int) -> int {
    if word >= 0 {
        word
    } else {
        word + usize::MAX + 1
    }
}

/// Converts a signed 32-bit word to a `usize` as a cast does; a negative word
/// wraps around.
pub fn i32_to_usize(word: i32) -> (r: usize)
    ensures
        r == usize_of_i32(word as int),
{
    if word >= 0 {
        word as usize
    } else {
        let magnitude_less_one = (-(word + 1)) as usize;
        usize::MAX - magnitude_less_one
    }
}

/// Reads the unsigned little-endian 32-bit number at `bytes[pos..pos + 4]`.
pub fn read_u32_le(bytes: &[u8], pos: usize) -> (r: u32)
    requires
        pos + 4 <= bytes.len(),
    ensures
        r == le_u32(bytes@, pos as int),
{
    let b0 = bytes[pos] as u32;
    let b1 = bytes[pos + 1] as u32;
    let b2 = bytes[pos + 2] as u32;
    let b3 = bytes[pos + 3] as u32;
    b0 + 256 * b1 + 65536 * b2 + 16777216 * b3
}

/// Reads the signed little-endian 32-bit number at `bytes[pos..pos + 4]`.
pub fn read_i32_le(bytes: &[u8], pos: usize) -> (r: i32)
    requires
        pos + 4 <= bytes.len(),
    ensures
        r == le_i32(bytes@, pos as int),
{
    let u = read_u32_le(bytes, pos);
    if u < 0x8000_0000 {
        u as i32
    } else {
        let low = (u - 0x8000_0000) as i32;
        low - 0x7fff_ffff - 1
    }
}

/// Why a header was refused.
#[derive(Debug, Clone, Copy, PartialEq, Eq, Structural)]
pub enum HeaderError {
    /// The data is shorter than a header.
    TooShort,
    /// The first word is not the expected magic number; it holds the word found.
    BadMagic(i32),
    /// The second word is not the expected version; it holds the word found.
    BadVersion(i32),
}

/// What `parse_header_data` finds wrong with `b`, if anything.
pub open spec fn header_error(b: Seq<u8>, magic_number: i32, version: i32) -> Option<HeaderError> {
    if b.len() < HEADER_BYTES {
        Some(HeaderError::TooShort)
    } else if le_i32(b, 0) != magic_number {
        Some(HeaderError::BadMagic(le_i32(b, 0) as i32))
    } else if le_i32(b, 4) != version {
        Some(HeaderError::BadVersion(le_i32(b, 4) as i32))
    } else {
        None
    }
}

/// Splits file data into its header, read as 256 signed little-endian words,
/// and the bytes that follow it; the first word must be `magic_number` and the
/// second `version`.
pub fn parse_header_data<'a>(bytes: &'a [u8], magic_number: i32, version: i32) -> (r: Result<
    (Vec<i32>, &'a [u8]),
    HeaderError,
>)
    ensures
        r is Ok <==> header_error(bytes@, magic_number, version) is None,
        r matches Err(e) ==> header_error(bytes@, magic_number, version) == Some(e),
        r matches Ok((header, payload)) ==> {
            &&& header@ == spec_header_i32(bytes@)
            &&& header[0] == magic_number
            &&& header[1] == version
            &&& payload@ == bytes@.subrange(HEADER_BYTES as int, bytes@.len() as int)
        },
{
    if bytes.len() < HEADER_BYTES {
        return Err(HeaderError::TooShort);
    }
    let mut header: Vec<i32> = Vec::new();
    let mut i: usize = 0;
    while i < HEADER_LEN
        invariant
            i <= HEADER_LEN,
            bytes.len() >= HEADER_BYTES,
            header@ =~= spec_header_i32(bytes@).take(i as int),
        decreases HEADER_LEN - i,
    {
        let w = read_i32_le(bytes, 4 * i);
        header.push(w);
        i += 1;
    }
    assert(spec_header_i32(bytes@).take(HEADER_LEN as int) =~= spec_header_i32(bytes@));
    if header[0] != magic_number {
        return Err(HeaderError::BadMagic(header[0]));
    }
    if header[1] != version {
        return Err(HeaderError::BadVersion(header[1]));
    }
    let payload = vstd::slice::slice_subrange(bytes, HEADER_BYTES, bytes.len());
    Ok((header, payload))
}

/// Reads `bytes` as consecutive little-endian 16-bit numbers; a trailing odd
/// byte is ignored.
pub fn u16_payload(bytes: &[u8]) -> (r: Vec<u16>)
    ensures
        r.len() == bytes.len() / 2,
        forall|i: int| 0 <= i < r.len() ==> r[i] == le_u16(bytes@, 2 * i),
        r@ == spec_u16_seq(bytes@),
{
    let n = bytes.len() / 2;
    let mut r: Vec<u16> = Vec::new();
    let mut i: usize = 0;
    while i < n
        invariant
            n == bytes.len() / 2,
            i <= n,
            r.len() == i,
            forall|k: int| 0 <= k < i ==> r[k] == le_u16(bytes@, 2 * k),
        decreases n - i,
    {
        let v = bytes[2 * i] as u16 + 256 * (bytes[2 * i + 1] as u16);
        r.push(v);
        i += 1;
    }
    assert(r@ =~= spec_u16_seq(bytes@));
    r
}

} // verus!
