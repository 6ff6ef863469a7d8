//! Serialization of embedding vectors into the fixed little-endian byte
//! layout that the similarity-search wire query expects: four bytes per
//! element, no padding, no length prefix.
//!
//! An element is carried as the 32 raw bits of the `f32` it stands for, so
//! the layout (and the round trip) is stated bitwise.

use vstd::prelude::*;

verus! {

/// The four little-endian bytes of one 32-bit word.
pub open spec fn le_bytes_of(w: u32) -> Seq<u8> {
    seq![
        (w & 0xff) as u8,
        ((w >> 8) & 0xff) as u8,
        ((w >> 16) & 0xff) as u8,
        ((w >> 24) & 0xff) as u8,
    ]
}

/// The byte layout of a whole vector: the little-endian bytes of each
/// element in order.
pub open spec fn serialized_bytes(v: Seq<u32>) -> Seq<u8>
    decreases v.len(),
{
    if v.len() == 0 {
        Seq::empty()
    } else {
        serialized_bytes(v.drop_last()) + le_bytes_of(v.last())
    }
}

/// The 32-bit word read from four little-endian bytes.
pub open spec fn word_of_le(b0: u8, b1: u8, b2: u8, b3: u8) -> u32 {
    (b0 as u32) | ((b1 as u32) << 8) | ((b2 as u32) << 16) | ((b3 as u32) << 24)
}

/// The words read back from a byte string whose length is a multiple of
/// four.
pub open spec fn deserialized_words(b: Seq<u8>) -> Seq<u32>
    decreases b.len(),
{
    if b.len() < 4 {
        Seq::empty()
    } else {
        deserialized_words(b.drop_last().drop_last().drop_last().drop_last()).push(
            word_of_le(b[b.len() - 4], b[b.len() - 3], b[b.len() - 2], b[b.len() - 1]),
        )
    }
}

proof fn lemma_word_le_round_trip(w: u32)
    ensures
        word_of_le(
            (w & 0xff) as u8,
            ((w >> 8) & 0xff) as u8,
            ((w >> 16) & 0xff) as u8,
            ((w >> 24) & 0xff) as u8,
        ) == w,
{
    assert((((w & 0xff) as u8) as u32) | (((((w >> 8) & 0xff) as u8) as u32) << 8) | (((((w >> 16)
        & 0xff) as u8) as u32) << 16) | (((((w >> 24) & 0xff) as u8) as u32) << 24) == w)
        by (bit_vector);
}

/// Law: decoding the little-endian byte layout of a vector yields the
/// original elements exactly, bit for bit, for vectors of every length.
pub proof fn lemma_serialize_round_trip(v: Seq<u32>)
    ensures
        deserialized_words(serialized_bytes(v)) == v,
    decreases v.len(),
{
    if v.len() == 0 {
        assert(serialized_bytes(v).len() == 0);
        assert(deserialized_words(serialized_bytes(v)) =~= v);
    } else {
        lemma_serialize_round_trip(v.drop_last());
        lemma_serialized_len(v.drop_last());
        let b = serialized_bytes(v);
        let prefix = serialized_bytes(v.drop_last());
        assert(b =~= prefix + le_bytes_of(v.last()));
        assert(b.len() == prefix.len() + 4);
        assert(b.drop_last().drop_last().drop_last().drop_last() =~= prefix);
        lemma_word_le_round_trip(v.last());
        assert(b[b.len() - 4] == (v.last() & 0xff) as u8);
        assert(b[b.len() - 3] == ((v.last() >> 8) & 0xff) as u8);
        assert(b[b.len() - 2] == ((v.last() >> 16) & 0xff) as u8);
        assert(b[b.len() - 1] == ((v.last() >> 24) & 0xff) as u8);
        assert(deserialized_words(b) =~= v);
    }
}

/// The layout takes exactly four bytes per element.
pub proof fn lemma_serialized_len(v: Seq<u32>)
    ensures
        serialized_bytes(v).len() == 4 * v.len(),
    decreases v.len(),
{
    if v.len() > 0 {
        lemma_serialized_len(v.drop_last());
    }
}

/// Encodes a vector of 32-bit element bit patterns into the little-endian
/// wire layout.
pub fn serialize_vector(vector: &Vec<u32>) -> (bytes: Vec<u8>)
    ensures
        bytes@ == serialized_bytes(vector@),
        bytes@.len() == 4 * vector@.len(),
{
    let mut bytes: Vec<u8> = Vec::new();
    let mut i: usize = 0;
    proof {
        lemma_serialized_len(vector@);
    }
    while i < vector.len()
        invariant
            0 <= i <= vector@.len(),
            bytes@ == serialized_bytes(vector@.take(i as int)),
            bytes@.len() == 4 * i,
        decreases vector@.len() - i,
    {
        proof {
            lemma_serialized_len(vector@.take(i as int));
        }
        let w = vector[i];
        bytes.push((w & 0xff) as u8);
        bytes.push(((w >> 8) & 0xff) as u8);
        bytes.push(((w >> 16) & 0xff) as u8);
        bytes.push(((w >> 24) & 0xff) as u8);
        proof {
            let pre = vector@.take(i as int);
            let cur = vector@.take(i as int + 1);
            assert(cur.drop_last() =~= pre);
            assert(cur.last() == vector@[i as int]);
            assert(bytes@ =~= serialized_bytes(pre) + le_bytes_of(vector@[i as int]));
        }
        i = i + 1;
    }
    proof {
        assert(vector@.take(i as int) =~= vector@);
        lemma_serialized_len(vector@);
    }
    bytes
}

/// Decodes the little-endian wire layout back into element bit patterns.
/// Succeeds exactly when the byte length is a multiple of four.
pub fn deserialize_vector(bytes: &Vec<u8>) -> (r: Option<Vec<u32>>)
    ensures
        r is Some <==> bytes@.len() % 4 == 0,
        r matches Some(v) ==> v@ == deserialized_words(bytes@),
{
    if bytes.len() % 4 != 0 {
        return None;
    }
    let mut words: Vec<u32> = Vec::new();
    let mut i: usize = 0;
    while i < bytes.len()
        invariant
            0 <= i <= bytes@.len(),
            i % 4 == 0,
            bytes@.len() % 4 == 0,
            words@ == deserialized_words(bytes@.take(i as int)),
        decreases bytes@.len() - i,
    {
        proof {
            assert(i + 4 <= bytes@.len()) by (nonlinear_arith)
                requires
                    i % 4 == 0,
                    bytes@.len() % 4 == 0,
                    i < bytes@.len(),
            ;
        }
        let w = word_of_le_exec(bytes[i], bytes[i + 1], bytes[i + 2], bytes[i + 3]);
        words.push(w);
        proof {
            let cur = bytes@.take(i as int + 4);
            assert(cur.len() == i + 4);
            assert(cur.drop_last().drop_last().drop_last().drop_last() =~= bytes@.take(i as int));
            assert(cur[cur.len() - 4] == bytes@[i as int]);
            assert(cur[cur.len() - 3] == bytes@[i as int + 1]);
            assert(cur[cur.len() - 2] == bytes@[i as int + 2]);
            assert(cur[cur.len() - 1] == bytes@[i as int + 3]);
            assert(words@ =~= deserialized_words(cur));
        }
        i = i + 4;
    }
    proof {
        assert(bytes@.take(i as int) =~= bytes@);
    }
    Some(words)
}

/// Reads one 32-bit word from four little-endian bytes.
pub fn word_of_le_exec(b0: u8, b1: u8, b2: u8, b3: u8) -> (w: u32)
    ensures
        w == word_of_le(b0, b1, b2, b3),
{
    (b0 as u32) | ((b1 as u32) << 8) | ((b2 as u32) << 16) | ((b3 as u32) << 24)
}

} // verus!
