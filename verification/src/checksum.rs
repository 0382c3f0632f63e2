//! The checksum generator: the EDID base block ends in one checksum
//! byte, chosen so that the 128 bytes sum to a multiple of 256.

use vstd::prelude::*;

verus! {

/// The sum of a byte sequence, as an unbounded integer.
pub open spec fn byte_sum(s: Seq<u8>) -> int
    decreases s.len(),
{
    if s.len() == 0 {
        0
    } else {
        byte_sum(s.drop_last()) + s.last()
    }
}

/// The checksum byte owed to a block whose first 127 bytes are those of
/// `s`: the value that makes the 128-byte sum a multiple of 256.
pub open spec fn checksum_byte(s: Seq<u8>) -> u8
    recommends
        s.len() >= 127,
{
    ((256 - byte_sum(s.subrange(0, 127)) % 256) % 256) as u8
}

/// A sum of bytes is never negative.
pub proof fn lemma_byte_sum_nonneg(s: Seq<u8>)
    ensures
        byte_sum(s) >= 0,
    decreases s.len(),
{
    if s.len() > 0 {
        lemma_byte_sum_nonneg(s.drop_last());
    }
}

/// Writing the checksum byte at position 127 balances the block: the
/// first 128 bytes then sum to a multiple of 256. When the first 127
/// bytes already sum to a multiple of 256, the byte written is 0, not
/// 256.
pub proof fn lemma_checksum_balances(s: Seq<u8>)
    requires
        s.len() == 128,
    ensures
        byte_sum(s.update(127, checksum_byte(s))) % 256 == 0,
        byte_sum(s.subrange(0, 127)) % 256 == 0 ==> checksum_byte(s) == 0,
{
    let t = s.update(127, checksum_byte(s));
    let prefix = s.subrange(0, 127);
    assert(t.drop_last() =~= prefix);
    let sum = byte_sum(prefix);
    lemma_byte_sum_nonneg(prefix);
    let m = sum % 256;
    vstd::arithmetic::div_mod::lemma_fundamental_div_mod(sum, 256);
    let q = sum / 256;
    if m == 0 {
        assert(checksum_byte(s) == 0) by {
            vstd::arithmetic::div_mod::lemma_mod_self_0(256);
        }
        assert(byte_sum(t) == sum);
        assert(byte_sum(t) % 256 == 0) by {
            vstd::arithmetic::div_mod::lemma_mod_multiples_basic(q, 256);
        }
    } else {
        assert(checksum_byte(s) == 256 - m) by {
            vstd::arithmetic::div_mod::lemma_small_mod((256 - m) as nat, 256);
        }
        assert(byte_sum(t) == (q + 1) * 256);
        assert(byte_sum(t) % 256 == 0) by {
            vstd::arithmetic::div_mod::lemma_mod_multiples_basic(q + 1, 256);
        }
    }
}

/// Recompute the checksum of an EDID base block in place: byte 127 is
/// set so that the first 128 bytes sum to a multiple of 256; no other
/// byte is touched.
pub fn gen_checksum(data: &mut Vec<u8>)
    requires
        old(data)@.len() >= 128,
    ensures
        final(data)@ == old(data)@.update(127, checksum_byte(old(data)@)),
        byte_sum(final(data)@.subrange(0, 128)) % 256 == 0,
{
    proof {
        let s128 = old(data)@.subrange(0, 128);
        assert(s128.subrange(0, 127) =~= old(data)@.subrange(0, 127));
        lemma_checksum_balances(s128);
        assert(old(data)@.update(127, checksum_byte(old(data)@)).subrange(0, 128) =~= s128.update(
            127,
            checksum_byte(s128),
        ));
    }
    let mut sum: u32 = 0;
    let mut i: usize = 0;
    while i < 127
        invariant
            data@ == old(data)@,
            data@.len() >= 128,
            i <= 127,
            sum == byte_sum(data@.subrange(0, i as int)),
            sum <= i * 255,
        decreases 127 - i,
    {
        proof {
            assert(data@.subrange(0, i + 1).drop_last() =~= data@.subrange(0, i as int));
            assert(data@.subrange(0, i + 1).last() == data@[i as int]);
        }
        sum = sum + data[i] as u32;
        i = i + 1;
    }
    let checksum: u8 = ((256 - sum % 256) % 256) as u8;
    data.set(127, checksum);
}

} // verus!
