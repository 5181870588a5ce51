//! Per-channel FIFO addressing and whole-buffer FIFO transfers.
//!
//! Each of the 16 channels owns a fixed address window; only the first
//! `FIFO_DEPTH_WORDS` words of a window are backed by FIFO memory, an
//! invariant the device guarantees and this layer inherits. The channel
//! bound is checked here and never trusted from caller input; the caller
//! that turns an address into a port cell is outside this layer.
use vstd::prelude::*;
use vcell::VolatileCell;
use crate::words::{
    word_count, words_of_bytes, bytes_of_words, pack_words, unpack_bytes,
    lemma_bytes_words_roundtrip,
};

verus! {

/// Base address of the USB OTG FS peripheral's register window.
pub const OTG_FS_BASE: usize = 0x5000_0000;

/// Offset of the first channel's FIFO window from the peripheral base.
pub const FIFO_OFFSET: usize = 0x1000;

/// Size of one channel's FIFO window in bytes.
pub const FIFO_SIZE: usize = 0x1000;

/// Words of a channel's window actually backed by FIFO memory.
pub const FIFO_DEPTH_WORDS: u32 = 320;

/// The address of a channel's FIFO data port.
pub open spec fn spec_fifo_address(channel: usize) -> int {
    OTG_FS_BASE + FIFO_OFFSET + channel * FIFO_SIZE
}

/// Computes the FIFO data port address of a channel: base, plus the fixed
/// FIFO offset, plus one window size per channel index.
pub fn fifo_address(channel: usize) -> (address: usize)
    requires
        channel <= 15,
    ensures
        address == spec_fifo_address(channel),
{
    OTG_FS_BASE + FIFO_OFFSET + channel * FIFO_SIZE
}

/// The boundary check on a caller-supplied channel index: the port address
/// for indices up to 15, nothing for the rest. An index over 15 is a caller
/// defect, fatal to the original operation, so no address is ever computed
/// for one.
pub fn fifo_address_checked(channel: usize) -> (address: Option<usize>)
    ensures
        match address {
            Some(a) => channel <= 15 && a == spec_fifo_address(channel),
            None => channel > 15,
        },
{
    if channel <= 15 {
        Some(fifo_address(channel))
    } else {
        None
    }
}

/// Law: writing a byte buffer, then reading back its word count and keeping
/// the buffer's length in bytes, reproduces the buffer exactly, for any
/// length up to the FIFO depth.
pub proof fn lemma_fifo_round_trip(s: Seq<u8>)
    requires
        1 <= s.len() <= 4 * FIFO_DEPTH_WORDS,
    ensures
        bytes_of_words(words_of_bytes(s)).take(s.len() as int) == s,
{
    lemma_bytes_words_roundtrip(s);
}

/// Transfers a byte buffer into the FIFO behind `fifo`: the buffer packed
/// into words little-endian, a non-empty trailing group zero-padded, one
/// volatile word store per group — `(buf.len() + 3) / 4` accesses in all.
///
/// The effect on the device is not modelled; sequencing against FIFO status
/// flags is the calling controller driver's responsibility.
pub fn fifo_write(fifo: &VolatileCell<u32>, buf: &[u8]) {
    let words = pack_words(buf);
    let n = words.len();
    let mut i: usize = 0;
    while i < n
        invariant
            n == words@.len(),
        decreases n - i,
    {
        fifo.set(words[i]);
        i = i + 1;
    }
}

/// Pops `n` words from the FIFO behind `fifo`, one volatile load each.
fn fifo_read_words(fifo: &VolatileCell<u32>, n: usize) -> (words: Vec<u32>)
    ensures
        words@.len() == n,
{
    let mut words: Vec<u32> = Vec::new();
    let mut i: usize = 0;
    while i < n
        invariant
            i <= n,
            words@.len() == i,
        decreases n - i,
    {
        words.push(fifo.get());
        i = i + 1;
    }
    words
}

/// The word count of a transfer of `len` bytes.
fn word_count_of(len: usize) -> (n: usize)
    ensures
        n == word_count(len as nat),
{
    proof {
        assert(len % 4 == 0 ==> (len + 3) / 4 == len / 4);
        assert(len % 4 != 0 ==> (len + 3) / 4 == len / 4 + 1);
    }
    if len % 4 == 0 {
        len / 4
    } else {
        len / 4 + 1
    }
}

/// Fills `buf` from the FIFO behind `fifo`: one volatile word load per
/// 4-byte group of the buffer — `(buf.len() + 3) / 4` accesses — a trailing
/// partial group still costing one full load of which only the leading bytes
/// are kept. The buffer's length is unchanged, and its new contents are the
/// leading bytes of the popped word sequence, whatever the hardware
/// returned.
pub fn fifo_read(fifo: &VolatileCell<u32>, buf: &mut Vec<u8>)
    ensures
        final(buf)@.len() == old(buf)@.len(),
        exists|ws: Seq<u32>|
            ws.len() == word_count(old(buf)@.len() as nat) && final(buf)@ == bytes_of_words(
                ws,
            ).take(old(buf)@.len() as int),
{
    let n = buf.len();
    let wc = word_count_of(n);
    let words = fifo_read_words(fifo, wc);
    proof {
        assert(n <= 4 * ((n + 3) / 4));
    }
    let bytes = unpack_bytes(words.as_slice(), n);
    *buf = bytes;
    proof {
        assert(final(buf)@ == bytes_of_words(words@).take(n as int));
    }
}

/// Drains one word per cell of `buf` from the FIFO behind `fifo` into the
/// volatile word buffer, in order: `buf.len()` loads, `buf.len()` stores.
pub fn fifo_read_into(fifo: &VolatileCell<u32>, buf: &[VolatileCell<u32>]) {
    let n = buf.len();
    let mut i: usize = 0;
    while i < n
        invariant
            n == buf@.len(),
        decreases n - i,
    {
        let word = fifo.get();
        buf[i].set(word);
        i = i + 1;
    }
}

} // verus!
