//! Marshalling of arbitrary-length byte buffers into and out of the 32-bit
//! words that the FIFO data port transfers.
//!
//! A buffer is processed in 4-byte groups, least significant byte first
//! (little-endian). Every group, full or partial, costs exactly one word: a
//! non-empty trailing group of 1 to 3 bytes is zero-padded into one extra
//! word, and an empty tail adds nothing.
use vstd::prelude::*;

verus! {

/// The FIFO word assembled from one 4-byte group, least significant byte
/// first.
pub open spec fn word_of_bytes(b0: u8, b1: u8, b2: u8, b3: u8) -> u32 {
    (b0 as u32) | ((b1 as u32) << 8u32) | ((b2 as u32) << 16u32) | ((b3 as u32) << 24u32)
}

/// The byte at position `k` (0 = least significant) of a FIFO word.
pub open spec fn byte_of_word(w: u32, k: int) -> u8 {
    if k == 0 {
        (w & 0xffu32) as u8
    } else if k == 1 {
        ((w >> 8u32) & 0xffu32) as u8
    } else if k == 2 {
        ((w >> 16u32) & 0xffu32) as u8
    } else {
        ((w >> 24u32) & 0xffu32) as u8
    }
}

/// Byte `i` of the buffer, or the zero padding past its end.
pub open spec fn padded_byte(s: Seq<u8>, i: int) -> u8 {
    if 0 <= i < s.len() {
        s[i]
    } else {
        0u8
    }
}

/// How many word accesses a buffer of `len` bytes costs: one per 4-byte
/// group, a partial trailing group included.
pub open spec fn word_count(len: nat) -> nat {
    (len + 3) / 4
}

/// The word sequence that a byte buffer marshals into.
pub open spec fn words_of_bytes(s: Seq<u8>) -> Seq<u32> {
    Seq::new(
        word_count(s.len()),
        |w: int|
            word_of_bytes(
                padded_byte(s, 4 * w),
                padded_byte(s, 4 * w + 1),
                padded_byte(s, 4 * w + 2),
                padded_byte(s, 4 * w + 3),
            ),
    )
}

/// The byte sequence that a word sequence unmarshals into.
pub open spec fn bytes_of_words(ws: Seq<u32>) -> Seq<u8> {
    Seq::new(4 * ws.len(), |i: int| byte_of_word(ws[i / 4], i % 4))
}

/// Law: marshalling a buffer of `len` bytes costs one word access per 4-byte
/// group — `(len + 3) / 4` in all — and for `len` a multiple of 4 exactly
/// `len / 4` accesses, with no padding word.
pub proof fn lemma_word_access_count(s: Seq<u8>)
    ensures
        words_of_bytes(s).len() == (s.len() + 3) / 4,
        s.len() % 4 == 0 ==> words_of_bytes(s).len() == s.len() / 4,
{
    if s.len() % 4 == 0 {
        let q = s.len() / 4;
        assert(s.len() == 4 * q);
        assert((4 * q + 3) / 4 == q);
    }
}

/// Each byte of a packed word reads back as the byte the group held.
pub proof fn lemma_word_bytes_roundtrip(b0: u8, b1: u8, b2: u8, b3: u8)
    ensures
        byte_of_word(word_of_bytes(b0, b1, b2, b3), 0) == b0,
        byte_of_word(word_of_bytes(b0, b1, b2, b3), 1) == b1,
        byte_of_word(word_of_bytes(b0, b1, b2, b3), 2) == b2,
        byte_of_word(word_of_bytes(b0, b1, b2, b3), 3) == b3,
{
    assert((((b0 as u32) | ((b1 as u32) << 8u32) | ((b2 as u32) << 16u32) | ((b3 as u32)
        << 24u32)) & 0xffu32) as u8 == b0) by (bit_vector);
    assert(((((b0 as u32) | ((b1 as u32) << 8u32) | ((b2 as u32) << 16u32) | ((b3 as u32)
        << 24u32)) >> 8u32) & 0xffu32) as u8 == b1) by (bit_vector);
    assert(((((b0 as u32) | ((b1 as u32) << 8u32) | ((b2 as u32) << 16u32) | ((b3 as u32)
        << 24u32)) >> 16u32) & 0xffu32) as u8 == b2) by (bit_vector);
    assert(((((b0 as u32) | ((b1 as u32) << 8u32) | ((b2 as u32) << 16u32) | ((b3 as u32)
        << 24u32)) >> 24u32) & 0xffu32) as u8 == b3) by (bit_vector);
}

/// Law: unmarshalling the words a byte buffer was marshalled into, then
/// truncating to the buffer's length, reproduces the buffer exactly.
pub proof fn lemma_bytes_words_roundtrip(s: Seq<u8>)
    ensures
        bytes_of_words(words_of_bytes(s)).take(s.len() as int) == s,
{
    let ws = words_of_bytes(s);
    let bs = bytes_of_words(ws);
    assert(s.len() <= 4 * word_count(s.len()));
    assert forall|i: int| 0 <= i < s.len() implies bs[i] == s[i] by {
        let w = i / 4;
        let k = i % 4;
        assert(4 * w + k == i);
        assert(0 <= w < ws.len());
        lemma_word_bytes_roundtrip(
            padded_byte(s, 4 * w),
            padded_byte(s, 4 * w + 1),
            padded_byte(s, 4 * w + 2),
            padded_byte(s, 4 * w + 3),
        );
        assert(bs[i] == byte_of_word(ws[w], k));
        assert(padded_byte(s, 4 * w + k) == s[i]);
    }
    assert(bs.take(s.len() as int) =~= s);
}

/// Builds one FIFO word from a 4-byte group.
pub fn word_from(b0: u8, b1: u8, b2: u8, b3: u8) -> (w: u32)
    ensures
        w == word_of_bytes(b0, b1, b2, b3),
{
    (b0 as u32) | ((b1 as u32) << 8u32) | ((b2 as u32) << 16u32) | ((b3 as u32) << 24u32)
}

/// Extracts byte `k` (0 = least significant) from a FIFO word.
pub fn extract_byte(w: u32, k: usize) -> (b: u8)
    requires
        k < 4,
    ensures
        b == byte_of_word(w, k as int),
{
    if k == 0 {
        (w & 0xffu32) as u8
    } else if k == 1 {
        ((w >> 8u32) & 0xffu32) as u8
    } else if k == 2 {
        ((w >> 16u32) & 0xffu32) as u8
    } else {
        ((w >> 24u32) & 0xffu32) as u8
    }
}

/// Packs a byte buffer into the words the FIFO port takes, one word per
/// 4-byte group, the trailing partial group zero-padded.
pub fn pack_words(buf: &[u8]) -> (words: Vec<u32>)
    ensures
        words@ == words_of_bytes(buf@),
{
    let n: usize = buf.len();
    let mut words: Vec<u32> = Vec::new();
    let mut i: usize = 0;
    while n - i >= 4
        invariant
            i <= n,
            n == buf@.len(),
            i % 4 == 0,
            4 * words@.len() == i,
            forall|w: int| 0 <= w < words@.len() ==> words@[w] == words_of_bytes(buf@)[w],
        decreases n - i,
    {
        let w = word_from(buf[i], buf[i + 1], buf[i + 2], buf[i + 3]);
        proof {
            assert(4 * (i as int / 4) == i);
            assert(i / 4 < word_count(n as nat));
        }
        words.push(w);
        i = i + 4;
    }
    if i < n {
        let b1: u8 = if i + 1 < n {
            buf[i + 1]
        } else {
            0
        };
        let b2: u8 = if i + 2 < n {
            buf[i + 2]
        } else {
            0
        };
        let w = word_from(buf[i], b1, b2, 0);
        proof {
            assert(4 * (i as int / 4) == i);
            assert(padded_byte(buf@, i + 3) == 0);
        }
        words.push(w);
    }
    proof {
        assert(words@ =~= words_of_bytes(buf@));
    }
    words
}

/// Unpacks the first `len` bytes out of a word buffer, group by group; the
/// trailing bytes of a partial final group are dropped.
pub fn unpack_bytes(words: &[u32], len: usize) -> (bytes: Vec<u8>)
    requires
        len <= 4 * words@.len(),
    ensures
        bytes@.len() == len,
        bytes@ == bytes_of_words(words@).take(len as int),
{
    let mut bytes: Vec<u8> = Vec::new();
    let mut i: usize = 0;
    while i < len
        invariant
            i <= len,
            len <= 4 * words@.len(),
            bytes@.len() == i,
            forall|j: int| 0 <= j < i ==> bytes@[j] == byte_of_word(words@[j / 4], j % 4),
        decreases len - i,
    {
        let b = extract_byte(words[i / 4], i % 4);
        bytes.push(b);
        i = i + 1;
    }
    proof {
        assert(bytes@ =~= bytes_of_words(words@).take(len as int));
    }
    bytes
}

} // verus!
