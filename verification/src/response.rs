//! The response of the decoding service: a sample buffer as raw bytes.
//!
//! A response is the concatenation of the two-byte forms of the samples, in
//! the order in which they were produced. It has no header, no length prefix
//! and no terminator; the peer learns its end from the closing of the
//! connection.

use vstd::prelude::*;

verus! {

/// The order of the two bytes of one sample on the wire.
#[derive(Clone, Copy, Debug, PartialEq, Eq, Structural)]
pub enum ByteOrder {
    /// Least significant byte first.
    LittleEndian,
    /// Most significant byte first.
    BigEndian,
}

/// The value of a sample read as an unsigned 16-bit number (two's complement).
pub open spec fn unsigned_value(sample: i16) -> int {
    if sample < 0 {
        sample + 0x1_0000
    } else {
        sample as int
    }
}

/// The less significant byte of a sample.
pub open spec fn low_byte(sample: i16) -> u8 {
    (unsigned_value(sample) % 0x100) as u8
}

/// The more significant byte of a sample.
pub open spec fn high_byte(sample: i16) -> u8 {
    (unsigned_value(sample) / 0x100) as u8
}

/// The byte at position `i` of the wire form of `samples`.
pub open spec fn wire_byte(samples: Seq<i16>, order: ByteOrder, i: int) -> u8 {
    let sample = samples[i / 2];
    if (i % 2 == 0) == (order == ByteOrder::LittleEndian) {
        low_byte(sample)
    } else {
        high_byte(sample)
    }
}

/// The wire form of a sample buffer: two bytes per sample, samples in order.
pub open spec fn wire_bytes(samples: Seq<i16>, order: ByteOrder) -> Seq<u8> {
    Seq::new(2 * samples.len(), |i: int| wire_byte(samples, order, i))
}

/// Splits a sample into its less and its more significant byte.
pub fn split_sample(sample: i16) -> (bytes: (u8, u8))
    ensures
        bytes.0 == low_byte(sample),
        bytes.1 == high_byte(sample),
{
    let wide: i32 = if sample < 0 {
        sample as i32 + 0x1_0000
    } else {
        sample as i32
    };
    ((wide % 0x100) as u8, (wide / 0x100) as u8)
}

/// Serialises a sample buffer for the wire.
pub fn encode_samples(samples: &Vec<i16>, order: ByteOrder) -> (bytes: Vec<u8>)
    ensures
        bytes@ == wire_bytes(samples@, order),
{
    let mut bytes: Vec<u8> = Vec::new();
    let mut i: usize = 0;
    while i < samples.len()
        invariant
            i <= samples.len(),
            bytes@ == wire_bytes(samples@.take(i as int), order),
        decreases samples.len() - i,
    {
        let (low, high) = split_sample(samples[i]);
        let ghost before = bytes@;
        match order {
            ByteOrder::LittleEndian => {
                bytes.push(low);
                bytes.push(high);
            },
            ByteOrder::BigEndian => {
                bytes.push(high);
                bytes.push(low);
            },
        }
        proof {
            let done = samples@.take(i as int);
            let next = samples@.take(i + 1);
            assert(next.len() == i + 1);
            assert forall|k: int| 0 <= k < 2 * (i + 1) implies bytes@[k] == wire_byte(
                next,
                order,
                k,
            ) by {
                if k < 2 * i {
                    assert(before[k] == wire_byte(done, order, k));
                    assert(done[k / 2] == next[k / 2]);
                } else {
                    assert(k / 2 == i);
                    assert(next[k / 2] == samples@[i as int]);
                }
            }
            assert(bytes@ =~= wire_bytes(next, order));
        }
        i = i + 1;
    }
    assert(samples@.take(i as int) =~= samples@);
    bytes
}

/// A response is exactly twice as long as the sample buffer that it carries.
pub proof fn lemma_wire_length(samples: Seq<i16>, order: ByteOrder)
    ensures
        wire_bytes(samples, order).len() == 2 * samples.len(),
{
}

/// The wire form of two buffers, one after the other, is the wire form of
/// the first followed by that of the second.
pub proof fn lemma_wire_concat(first: Seq<i16>, second: Seq<i16>, order: ByteOrder)
    ensures
        wire_bytes(first + second, order) == wire_bytes(first, order) + wire_bytes(second, order),
{
    let whole = wire_bytes(first + second, order);
    let parts = wire_bytes(first, order) + wire_bytes(second, order);
    assert forall|k: int| 0 <= k < whole.len() implies whole[k] == parts[k] by {
        if k < 2 * first.len() {
            assert((first + second)[k / 2] == first[k / 2]);
        } else {
            let j = k - 2 * first.len();
            assert(j / 2 == k / 2 - first.len());
            assert(j % 2 == k % 2);
            assert((first + second)[k / 2] == second[j / 2]);
        }
    }
    assert(whole =~= parts);
}

/// The two bytes of a sample determine it.
pub proof fn lemma_sample_from_bytes(a: i16, b: i16)
    requires
        low_byte(a) == low_byte(b),
        high_byte(a) == high_byte(b),
    ensures
        a == b,
{
    let ua = unsigned_value(a);
    let ub = unsigned_value(b);
    assert(ua == (ua / 0x100) * 0x100 + ua % 0x100);
    assert(ub == (ub / 0x100) * 0x100 + ub % 0x100);
}

/// Two sample buffers with the same wire form are the same buffer: byte for
/// byte equal responses carry sample for sample equal results.
pub proof fn lemma_wire_bytes_injective(first: Seq<i16>, second: Seq<i16>, order: ByteOrder)
    requires
        wire_bytes(first, order) == wire_bytes(second, order),
    ensures
        first == second,
{
    assert(2 * first.len() == wire_bytes(first, order).len());
    assert(2 * second.len() == wire_bytes(second, order).len());
    assert forall|i: int| 0 <= i < first.len() implies first[i] == second[i] by {
        let even = wire_bytes(first, order)[2 * i];
        let odd = wire_bytes(first, order)[2 * i + 1];
        assert(even == wire_byte(first, order, 2 * i));
        assert(odd == wire_byte(first, order, 2 * i + 1));
        assert(even == wire_byte(second, order, 2 * i));
        assert(odd == wire_byte(second, order, 2 * i + 1));
        assert((2 * i) / 2 == i);
        assert((2 * i + 1) / 2 == i);
        assert((2 * i) % 2 == 0);
        assert((2 * i + 1) % 2 == 1);
        lemma_sample_from_bytes(first[i], second[i]);
    }
    assert(first =~= second);
}

} // verus!
