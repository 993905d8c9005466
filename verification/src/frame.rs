//! Byte-to-word packing of page payloads in the mailbox SRAM window.
//!
//! A write request packs the page's bytes four at a time into successive
//! 32-bit words, little-endian within each word; a read completion unpacks
//! the same layout.  The packing is a lossless round trip, stated and
//! proved at the end of this module.

use vstd::prelude::*;
use crate::flash::PAGE_SIZE;
use crate::regs::PAGE_WORDS;

verus! {

/// The 32-bit word holding bytes `b0..b3` little-endian: `b0` in bits 0-7,
/// `b1` in bits 8-15, and so on.
pub open spec fn word_from_bytes(b0: u8, b1: u8, b2: u8, b3: u8) -> u32 {
    (b0 as u32) | ((b1 as u32) << 8) | ((b2 as u32) << 16) | ((b3 as u32) << 24)
}

/// Word `i` of a page's packed payload.
pub open spec fn page_word(page: Seq<u8>, i: int) -> u32
    recommends
        0 <= i,
        4 * i + 3 < page.len(),
{
    word_from_bytes(page[4 * i], page[4 * i + 1], page[4 * i + 2], page[4 * i + 3])
}

/// Byte `j` of a packed word, inverting the little-endian packing.
pub open spec fn byte_of_word(w: u32, j: int) -> u8
    recommends
        0 <= j < 4,
{
    if j == 0 {
        (w & 0xff) as u8
    } else if j == 1 {
        ((w >> 8) & 0xff) as u8
    } else if j == 2 {
        ((w >> 16) & 0xff) as u8
    } else {
        ((w >> 24) & 0xff) as u8
    }
}

/// The packed payload of a whole page: `PAGE_WORDS` words.
pub open spec fn encode_page(page: Seq<u8>) -> Seq<u32>
    recommends
        page.len() == PAGE_SIZE,
{
    Seq::new(PAGE_WORDS as nat, |i: int| page_word(page, i))
}

/// The bytes carried by a sequence of packed words.
pub open spec fn decode_words(words: Seq<u32>) -> Seq<u8> {
    Seq::new(4 * words.len(), |k: int| byte_of_word(words[k / 4], k % 4))
}

/// Packing four bytes into a word and unpacking them again returns the
/// original bytes.
pub proof fn lemma_word_round_trip(b0: u8, b1: u8, b2: u8, b3: u8)
    ensures
        byte_of_word(word_from_bytes(b0, b1, b2, b3), 0) == b0,
        byte_of_word(word_from_bytes(b0, b1, b2, b3), 1) == b1,
        byte_of_word(word_from_bytes(b0, b1, b2, b3), 2) == b2,
        byte_of_word(word_from_bytes(b0, b1, b2, b3), 3) == b3,
{
    assert(((((b0 as u32) | ((b1 as u32) << 8) | ((b2 as u32) << 16) | ((b3 as u32) << 24))
        & 0xff) as u8) == b0) by (bit_vector);
    assert((((((b0 as u32) | ((b1 as u32) << 8) | ((b2 as u32) << 16) | ((b3 as u32) << 24))
        >> 8) & 0xff) as u8) == b1) by (bit_vector);
    assert((((((b0 as u32) | ((b1 as u32) << 8) | ((b2 as u32) << 16) | ((b3 as u32) << 24))
        >> 16) & 0xff) as u8) == b2) by (bit_vector);
    assert((((((b0 as u32) | ((b1 as u32) << 8) | ((b2 as u32) << 16) | ((b3 as u32) << 24))
        >> 24) & 0xff) as u8) == b3) by (bit_vector);
}

/// Encoding a page into frame words and decoding them back reproduces the
/// page exactly: the byte packing is a lossless round trip.
pub proof fn lemma_page_round_trip(page: Seq<u8>)
    requires
        page.len() == PAGE_SIZE,
    ensures
        decode_words(encode_page(page)) == page,
{
    let words = encode_page(page);
    assert forall|k: int| 0 <= k < 4 * PAGE_WORDS implies decode_words(words)[k] == page[k] by {
        let i = k / 4;
        let j = k % 4;
        assert(0 <= i < PAGE_WORDS);
        assert(0 <= j < 4);
        assert(4 * i + j == k);
        lemma_word_round_trip(
            page[4 * i],
            page[4 * i + 1],
            page[4 * i + 2],
            page[4 * i + 3],
        );
    }
    assert(decode_words(encode_page(page)) =~= page);
}

} // verus!
