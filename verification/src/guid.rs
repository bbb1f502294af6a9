//! The 128-bit well-known identifier that names protocols, event groups
//! and configuration tables.
//!
//! On the wire a Guid is sixteen bytes: a 32-bit, two 16-bit and two 8-bit
//! fields, the multi-byte ones little-endian, followed by six node bytes.
//! Here it is held as two 64-bit words packing those bytes in order, which
//! keeps equality structural and the packing arithmetic checkable.

use vstd::prelude::*;

verus! {

/// A 128-bit identifier: bytes 0..8 of the wire form packed little-endian
/// into `lo`, bytes 8..16 into `hi`.
#[derive(Clone, Copy, PartialEq, Eq, Structural, Debug)]
pub struct Guid {
    pub lo: u64,
    pub hi: u64,
}

/// The low word an identifier built from its specification fields packs:
/// the 32-bit field, then the two 16-bit fields, little-endian in order.
pub open spec fn fields_lo(time_low: u32, time_mid: u16, time_hi_and_version: u16) -> u64 {
    time_low as u64 | (time_mid as u64) << 32 | (time_hi_and_version as u64) << 48
}

/// The high word an identifier built from its specification fields packs:
/// the two clock bytes, then the six node bytes in order.
pub open spec fn fields_hi(
    clk_seq_hi_res: u8,
    clk_seq_low: u8,
    node: Seq<u8>,
) -> u64
    recommends
        node.len() == 6,
{
    clk_seq_hi_res as u64 | (clk_seq_low as u64) << 8 | (node[0] as u64) << 16 | (node[1] as u64)
        << 24 | (node[2] as u64) << 32 | (node[3] as u64) << 40 | (node[4] as u64) << 48 | (
    node[5] as u64) << 56
}

/// The word that packs eight wire bytes little-endian.
pub open spec fn bytes_word(b: Seq<u8>) -> u64
    recommends
        b.len() == 8,
{
    b[0] as u64 | (b[1] as u64) << 8 | (b[2] as u64) << 16 | (b[3] as u64) << 24 | (b[4] as u64)
        << 32 | (b[5] as u64) << 40 | (b[6] as u64) << 48 | (b[7] as u64) << 56
}

/// The eight wire bytes of a word, little-endian.
pub open spec fn word_bytes(x: u64) -> Seq<u8> {
    seq![
        x as u8,
        (x >> 8) as u8,
        (x >> 16) as u8,
        (x >> 24) as u8,
        (x >> 32) as u8,
        (x >> 40) as u8,
        (x >> 48) as u8,
        (x >> 56) as u8,
    ]
}

/// Splitting a word into its wire bytes and packing them again yields
/// the word: the wire form loses nothing.
pub proof fn lemma_word_bytes_round_trip(x: u64)
    ensures
        bytes_word(word_bytes(x)) == x,
{
    assert((x as u8) as u64 | (((x >> 8) as u8) as u64) << 8 | (((x >> 16) as u8) as u64) << 16
        | (((x >> 24) as u8) as u64) << 24 | (((x >> 32) as u8) as u64) << 32 | (((x
        >> 40) as u8) as u64) << 40 | (((x >> 48) as u8) as u64) << 48 | (((x >> 56) as u8) as u64)
        << 56 == x) by (bit_vector);
}

impl Guid {
    /// Build an identifier from its specification fields, as it is
    /// written: the first three fields little-endian, the rest in byte
    /// order.
    pub fn from_fields(
        time_low: u32,
        time_mid: u16,
        time_hi_and_version: u16,
        clk_seq_hi_res: u8,
        clk_seq_low: u8,
        node: &[u8; 6],
    ) -> (g: Guid)
        ensures
            g.lo == fields_lo(time_low, time_mid, time_hi_and_version),
            g.hi == fields_hi(clk_seq_hi_res, clk_seq_low, node@),
    {
        let lo: u64 = time_low as u64 | (time_mid as u64) << 32 | (time_hi_and_version as u64)
            << 48;
        let hi: u64 = clk_seq_hi_res as u64 | (clk_seq_low as u64) << 8 | (node[0] as u64) << 16
            | (node[1] as u64) << 24 | (node[2] as u64) << 32 | (node[3] as u64) << 40 | (
        node[4] as u64) << 48 | (node[5] as u64) << 56;
        Guid { lo, hi }
    }

    /// Build an identifier from its sixteen wire bytes.
    pub fn from_bytes(bytes: &[u8; 16]) -> (g: Guid)
        ensures
            g.lo == bytes_word(bytes@.subrange(0, 8)),
            g.hi == bytes_word(bytes@.subrange(8, 16)),
    {
        let lo: u64 = bytes[0] as u64 | (bytes[1] as u64) << 8 | (bytes[2] as u64) << 16 | (
        bytes[3] as u64) << 24 | (bytes[4] as u64) << 32 | (bytes[5] as u64) << 40 | (
        bytes[6] as u64) << 48 | (bytes[7] as u64) << 56;
        let hi: u64 = bytes[8] as u64 | (bytes[9] as u64) << 8 | (bytes[10] as u64) << 16 | (
        bytes[11] as u64) << 24 | (bytes[12] as u64) << 32 | (bytes[13] as u64) << 40 | (
        bytes[14] as u64) << 48 | (bytes[15] as u64) << 56;
        let g = Guid { lo, hi };
        proof {
            assert(g.lo == bytes_word(bytes@.subrange(0, 8))) by {
                assert(forall|i: int| 0 <= i < 8 ==> bytes@.subrange(0, 8)[i] == bytes@[i]);
            }
            assert(g.hi == bytes_word(bytes@.subrange(8, 16))) by {
                assert(forall|i: int| 0 <= i < 8 ==> bytes@.subrange(8, 16)[i] == bytes@[i + 8]);
            }
        }
        g
    }

    /// The identifier's sixteen wire bytes.
    pub fn as_bytes(&self) -> (r: [u8; 16])
        ensures
            r@ == word_bytes(self.lo) + word_bytes(self.hi),
    {
        let r: [u8; 16] = [
            self.lo as u8,
            (self.lo >> 8) as u8,
            (self.lo >> 16) as u8,
            (self.lo >> 24) as u8,
            (self.lo >> 32) as u8,
            (self.lo >> 40) as u8,
            (self.lo >> 48) as u8,
            (self.lo >> 56) as u8,
            self.hi as u8,
            (self.hi >> 8) as u8,
            (self.hi >> 16) as u8,
            (self.hi >> 24) as u8,
            (self.hi >> 32) as u8,
            (self.hi >> 40) as u8,
            (self.hi >> 48) as u8,
            (self.hi >> 56) as u8,
        ];
        proof {
            assert(r@ =~= word_bytes(self.lo) + word_bytes(self.hi));
        }
        r
    }
}

/// Writing an identifier out as its wire bytes and reading those bytes
/// back yields the identifier: the wire form is lossless.
pub proof fn lemma_guid_bytes_round_trip(g: Guid)
    ensures
        ({
            let b = word_bytes(g.lo) + word_bytes(g.hi);
            bytes_word(b.subrange(0, 8)) == g.lo && bytes_word(b.subrange(8, 16)) == g.hi
        }),
{
    let b = word_bytes(g.lo) + word_bytes(g.hi);
    assert(b.subrange(0, 8) =~= word_bytes(g.lo));
    assert(b.subrange(8, 16) =~= word_bytes(g.hi));
    lemma_word_bytes_round_trip(g.lo);
    lemma_word_bytes_round_trip(g.hi);
}

} // verus!
