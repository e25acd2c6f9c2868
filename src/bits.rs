//! Little-endian byte assembly and single-bit access on machine words.
use vstd::prelude::*;

verus! {

/// The unsigned value of `bytes` read as a little-endian number.
pub open spec fn le_value(bytes: Seq<u8>) -> nat
    decreases bytes.len(),
{
    if bytes.len() == 0 {
        0
    } else {
        bytes[0] as nat + 256 * le_value(bytes.drop_first())
    }
}

/// Builds the little-endian `u32` whose bytes, lowest first, are `b0` to `b3`.
pub fn construct_u32(b0: u8, b1: u8, b2: u8, b3: u8) -> (r: u32)
    ensures
        r as nat == le_value(seq![b0, b1, b2, b3]),
{
    proof {
        lemma_le_value_4(b0, b1, b2, b3);
        assert((b0 as u32) | ((b1 as u32) << 8) | ((b2 as u32) << 16) | ((b3 as u32) << 24)
            == b0 as u32 + 0x100 * (b1 as u32) + 0x1_0000 * (b2 as u32) + 0x100_0000 * (b3 as u32))
            by (bit_vector);
    }
    (b0 as u32) | ((b1 as u32) << 8) | ((b2 as u32) << 16) | ((b3 as u32) << 24)
}

/// The value of four little-endian bytes.
pub proof fn lemma_le_value_4(b0: u8, b1: u8, b2: u8, b3: u8)
    ensures
        le_value(seq![b0, b1, b2, b3]) == b0 + 0x100 * b1 + 0x1_0000 * b2 + 0x100_0000 * b3,
{
    let s = seq![b0, b1, b2, b3];
    assert(s.drop_first() =~= seq![b1, b2, b3]);
    assert(s.drop_first().drop_first() =~= seq![b2, b3]);
    assert(s.drop_first().drop_first().drop_first() =~= seq![b3]);
    assert(s.drop_first().drop_first().drop_first().drop_first() =~= Seq::<u8>::empty());
    reveal_with_fuel(le_value, 5);
}


/// The byte of `data` at `i`, or zero where `i` lies past its end.
pub open spec fn byte_or_zero(data: Seq<u8>, i: int) -> u8 {
    if 0 <= i < data.len() {
        data[i]
    } else {
        0
    }
}

/// Whether bit `i` of `v` is set.
pub open spec fn bit_of(v: u64, i: u64) -> bool {
    (v >> i) & 1 == 1
}

proof fn lemma_le_value_8(s: Seq<u8>)
    requires
        s.len() == 8,
    ensures
        le_value(s) == s[0] + 0x100 * s[1] + 0x1_0000 * s[2] + 0x100_0000 * s[3] + 0x1_0000_0000
            * s[4] + 0x100_0000_0000 * s[5] + 0x1_0000_0000_0000 * s[6] + 0x100_0000_0000_0000
            * s[7],
{
    let s1 = s.drop_first();
    let s2 = s1.drop_first();
    let s3 = s2.drop_first();
    let s4 = s3.drop_first();
    let s5 = s4.drop_first();
    let s6 = s5.drop_first();
    let s7 = s6.drop_first();
    let s8 = s7.drop_first();
    assert(s8 =~= Seq::<u8>::empty());
    reveal_with_fuel(le_value, 9);
}

/// Splits the value of eight little-endian bytes into its low and high words.
pub proof fn lemma_le_value_split_8(s: Seq<u8>)
    requires
        s.len() == 8,
    ensures
        le_value(s) == le_value(s.take(4)) + 0x1_0000_0000 * le_value(s.skip(4)),
{
    lemma_le_value_8(s);
    let lo = s.take(4);
    let hi = s.skip(4);
    assert(lo =~= seq![s[0], s[1], s[2], s[3]]);
    assert(hi =~= seq![s[4], s[5], s[6], s[7]]);
    lemma_le_value_4(s[0], s[1], s[2], s[3]);
    lemma_le_value_4(s[4], s[5], s[6], s[7]);
}

/// Builds the little-endian `u64` whose bytes, lowest first, are `bytes`.
pub fn construct_u64(bytes: [u8; 8]) -> (r: u64)
    ensures
        r as nat == le_value(bytes@),
{
    let b0 = bytes[0] as u64;
    let b1 = bytes[1] as u64;
    let b2 = bytes[2] as u64;
    let b3 = bytes[3] as u64;
    let b4 = bytes[4] as u64;
    let b5 = bytes[5] as u64;
    let b6 = bytes[6] as u64;
    let b7 = bytes[7] as u64;
    proof {
        lemma_le_value_8(bytes@);
        assert(b0 | (b1 << 8) | (b2 << 16) | (b3 << 24) | (b4 << 32) | (b5 << 40) | (b6 << 48) | (
        b7 << 56) == b0 + 0x100 * b1 + 0x1_0000 * b2 + 0x100_0000 * b3 + 0x1_0000_0000 * b4
            + 0x100_0000_0000 * b5 + 0x1_0000_0000_0000 * b6 + 0x100_0000_0000_0000 * b7)
            by (bit_vector)
            requires
                b0 < 256,
                b1 < 256,
                b2 < 256,
                b3 < 256,
                b4 < 256,
                b5 < 256,
                b6 < 256,
                b7 < 256,
        ;
    }
    b0 | (b1 << 8) | (b2 << 16) | (b3 << 24) | (b4 << 32) | (b5 << 40) | (b6 << 48) | (b7 << 56)
}

/// Builds the little-endian `u64` from the eight bytes of `data` that start at
/// `offset`; bytes past the end of `data` count as zero.
pub fn construct_u64_from_data(data: &[u8], offset: usize) -> (r: u64)
    ensures
        r as nat == le_value(Seq::new(8, |k: int| byte_or_zero(data@, offset + k))),
{
    let mut bytes = [0u8; 8];
    let mut k: usize = 0;
    while k < 8
        invariant
            k <= 8,
            forall|j: int| 0 <= j < k ==> bytes@[j] == byte_or_zero(data@, offset + j),
            forall|j: int| k <= j < 8 ==> bytes@[j] == 0,
        decreases 8 - k,
    {
        if offset < data.len() && k < data.len() - offset {
            bytes[k] = data[offset + k];
        }
        k = k + 1;
    }
    assert(bytes@ =~= Seq::new(8, |k: int| byte_or_zero(data@, offset + k)));
    construct_u64(bytes)
}

/// Whether bit `index` of `value` is set.
pub fn get_bit_u64(value: u64, index: u64) -> (r: bool)
    requires
        index < 64,
    ensures
        r == bit_of(value, index),
{
    (value >> index) & 1 == 1
}

/// `v` with bit `i` set to `b`.
pub open spec fn with_bit(v: u64, i: u64, b: bool) -> u64 {
    if b {
        v | (1u64 << i)
    } else {
        v & !(1u64 << i)
    }
}

/// `value` with bit `index` set to `bit` and every other bit kept.
pub fn set_bit_u64(value: u64, index: u64, bit: bool) -> (r: u64)
    requires
        index < 64,
    ensures
        r == with_bit(value, index, bit),
        bit_of(r, index) == bit,
        forall|j: u64| j < 64 && j != index ==> bit_of(r, j) == bit_of(value, j),
{
    let r = if bit {
        value | (1u64 << index)
    } else {
        value & !(1u64 << index)
    };
    proof {
        if bit {
            assert(((value | (1u64 << index)) >> index) & 1 == 1) by (bit_vector)
                requires
                    index < 64,
            ;
            assert forall|j: u64| j < 64 && j != index implies bit_of(r, j) == bit_of(value, j) by {
                assert((((value | (1u64 << index)) >> j) & 1 == 1) == ((value >> j) & 1 == 1))
                    by (bit_vector)
                    requires
                        index < 64,
                        j < 64,
                        j != index,
                ;
            }
        } else {
            assert(((value & !(1u64 << index)) >> index) & 1 == 0) by (bit_vector)
                requires
                    index < 64,
            ;
            assert forall|j: u64| j < 64 && j != index implies bit_of(r, j) == bit_of(value, j) by {
                assert((((value & !(1u64 << index)) >> j) & 1 == 1) == ((value >> j) & 1 == 1))
                    by (bit_vector)
                    requires
                        index < 64,
                        j < 64,
                        j != index,
                ;
            }
        }
    }
    r
}

} // verus!
