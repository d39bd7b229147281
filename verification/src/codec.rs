//! Conversion between a tensor's bytes and its 32-bit elements.
//!
//! A tensor buffer holds its elements as consecutive groups of four bytes, least
//! significant byte first. An element is carried as the `u32` bit pattern of the
//! single-precision number it stands for, so the conversion is exact for every
//! pattern, whatever number it encodes.

use vstd::prelude::*;

use crate::error::PipelineError;

verus! {

/// Byte `position` (0 is the least significant) of `word`.
pub open spec fn byte_of(word: u32, position: int) -> u8 {
    if position == 0 {
        (word % 0x100) as u8
    } else if position == 1 {
        (word / 0x100 % 0x100) as u8
    } else if position == 2 {
        (word / 0x1_0000 % 0x100) as u8
    } else {
        (word / 0x100_0000 % 0x100) as u8
    }
}

/// The word whose bytes, least significant first, are `b0`, `b1`, `b2`, `b3`.
pub open spec fn word_of(b0: u8, b1: u8, b2: u8, b3: u8) -> u32 {
    (b0 + 0x100 * b1 + 0x1_0000 * b2 + 0x100_0000 * b3) as u32
}

/// The bytes of a tensor whose elements are `words`.
pub open spec fn encoded(words: Seq<u32>) -> Seq<u8> {
    Seq::new(4 * words.len(), |i: int| byte_of(words[i / 4], i % 4))
}

/// The elements of a tensor whose bytes are `bytes`; `None` where the bytes do
/// not form whole groups of four.
pub open spec fn decoded(bytes: Seq<u8>) -> Option<Seq<u32>> {
    if bytes.len() % 4 == 0 {
        Some(
            Seq::new(
                bytes.len() / 4,
                |i: int| word_of(bytes[4 * i], bytes[4 * i + 1], bytes[4 * i + 2], bytes[4 * i + 3]),
            ),
        )
    } else {
        None
    }
}

/// Splitting a word into bytes and joining them again gives the word back.
pub proof fn lemma_word_of_bytes(word: u32)
    ensures
        word_of(byte_of(word, 0), byte_of(word, 1), byte_of(word, 2), byte_of(word, 3)) == word,
{
}

/// Joining four bytes into a word and splitting it again gives the bytes back.
pub proof fn lemma_bytes_of_word(b0: u8, b1: u8, b2: u8, b3: u8)
    ensures
        byte_of(word_of(b0, b1, b2, b3), 0) == b0,
        byte_of(word_of(b0, b1, b2, b3), 1) == b1,
        byte_of(word_of(b0, b1, b2, b3), 2) == b2,
        byte_of(word_of(b0, b1, b2, b3), 3) == b3,
{
    let t3: int = b3 as int;
    let t2: int = b2 + 0x100 * t3;
    let t1: int = b1 + 0x100 * t2;
    let t0: int = b0 + 0x100 * t1;
    assert(word_of(b0, b1, b2, b3) == t0);
    assert(t0 % 0x100 == b0 && t0 / 0x100 == t1);
    assert(t1 % 0x100 == b1 && t1 / 0x100 == t2);
    assert(t2 % 0x100 == b2 && t2 / 0x100 == t3);
    assert(t0 / 0x1_0000 == t2);
    assert(t0 / 0x100_0000 == t3);
}

/// Decoding an encoded tensor gives back every element, bit for bit.
pub proof fn lemma_decode_encode(words: Seq<u32>)
    ensures
        decoded(encoded(words)) == Some(words),
{
    let bytes = encoded(words);
    let back = decoded(bytes).unwrap();
    assert(back.len() == words.len());
    assert forall|i: int| 0 <= i < words.len() implies back[i] == words[i] by {
        lemma_word_of_bytes(words[i]);
    }
    assert(back =~= words);
}

/// Encoding a decoded buffer gives back every byte.
pub proof fn lemma_encode_decode(bytes: Seq<u8>)
    requires
        bytes.len() % 4 == 0,
    ensures
        encoded(decoded(bytes).unwrap()) == bytes,
{
    let words = decoded(bytes).unwrap();
    let back = encoded(words);
    assert(back.len() == bytes.len());
    assert forall|i: int| 0 <= i < bytes.len() implies back[i] == bytes[i] by {
        let g = i / 4;
        lemma_bytes_of_word(bytes[4 * g], bytes[4 * g + 1], bytes[4 * g + 2], bytes[4 * g + 3]);
    }
    assert(back =~= bytes);
}

fn join_word(b0: u8, b1: u8, b2: u8, b3: u8) -> (word: u32)
    ensures
        word == word_of(b0, b1, b2, b3),
{
    let low: u32 = b0 as u32 + 0x100 * (b1 as u32);
    let high: u32 = b2 as u32 + 0x100 * (b3 as u32);
    low + 0x1_0000 * high
}

/// Reads a tensor buffer as its elements.
///
/// Fails with `Codec` exactly when the length is not a multiple of four.
pub fn decode_tensor(data: &[u8]) -> (out: Result<Vec<u32>, PipelineError>)
    ensures
        match out {
            Ok(words) => decoded(data@) == Some(words@),
            Err(e) => decoded(data@).is_none() && e == (PipelineError::Codec { length: data.len() }),
        },
{
    let length: usize = data.len();
    if length % 4 != 0 {
        return Err(PipelineError::Codec { length });
    }
    let count: usize = length / 4;
    let mut words: Vec<u32> = Vec::with_capacity(count);
    let mut i: usize = 0;
    while i < count
        invariant
            length == data.len(),
            length == 4 * count,
            i <= count,
            words.len() == i,
            forall|j: int|
                0 <= j < i ==> words[j] == word_of(
                    data[4 * j],
                    data[4 * j + 1],
                    data[4 * j + 2],
                    data[4 * j + 3],
                ),
        decreases count - i,
    {
        let at: usize = 4 * i;
        words.push(join_word(data[at], data[at + 1], data[at + 2], data[at + 3]));
        i += 1;
    }
    assert(words@ =~= decoded(data@).unwrap());
    Ok(words)
}

/// Reads a tensor buffer that the caller gives up as its elements.
///
/// Fails with `Codec` exactly when the length is not a multiple of four.
pub fn bytes_to_f32_vec(data: Vec<u8>) -> (out: Result<Vec<u32>, PipelineError>)
    ensures
        match out {
            Ok(words) => decoded(data@) == Some(words@),
            Err(e) => decoded(data@).is_none() && e == (PipelineError::Codec { length: data.len() }),
        },
{
    decode_tensor(data.as_slice())
}

/// Writes the elements of a tensor as its buffer. Never fails.
pub fn f32_vec_to_bytes(words: &Vec<u32>) -> (out: Vec<u8>)
    ensures
        out@ == encoded(words@),
{
    let count: usize = words.len();
    let mut bytes: Vec<u8> = Vec::new();
    let mut i: usize = 0;
    while i < count
        invariant
            count == words.len(),
            i <= count,
            bytes.len() == 4 * i,
            forall|j: int| 0 <= j < 4 * i ==> bytes[j] == byte_of(words[j / 4], j % 4),
        decreases count - i,
    {
        let word: u32 = words[i];
        bytes.push((word % 0x100) as u8);
        bytes.push((word / 0x100 % 0x100) as u8);
        bytes.push((word / 0x1_0000 % 0x100) as u8);
        bytes.push((word / 0x100_0000 % 0x100) as u8);
        i += 1;
    }
    assert(bytes@ =~= encoded(words@));
    bytes
}

} // verus!
