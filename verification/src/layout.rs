//! Little-endian integer layouts used in instruction payloads.

use vstd::prelude::*;

verus! {

/// The first `n` bytes of `x` written least significant byte first.
pub open spec fn le_bytes(x: nat, n: nat) -> Seq<u8>
    decreases n,
{
    if n == 0 {
        Seq::empty()
    } else {
        seq![(x % 256) as u8] + le_bytes(x / 256, (n - 1) as nat)
    }
}

/// The number that `bytes` spell when read least significant byte first.
pub open spec fn le_value(bytes: Seq<u8>) -> nat
    decreases bytes.len(),
{
    if bytes.len() == 0 {
        0
    } else {
        bytes[0] as nat + 256 * le_value(bytes.drop_first())
    }
}

/// 256 to the power `n`.
pub open spec fn pow256(n: nat) -> nat
    decreases n,
{
    if n == 0 {
        1
    } else {
        256 * pow256((n - 1) as nat)
    }
}

/// The four-byte little-endian layout of `x`.
pub open spec fn le_u32(x: u32) -> Seq<u8> {
    le_bytes(x as nat, 4)
}

/// The eight-byte little-endian layout of `x`.
pub open spec fn le_u64(x: u64) -> Seq<u8> {
    le_bytes(x as nat, 8)
}

/// `le_bytes(x, n)` has exactly `n` bytes.
pub proof fn lemma_le_bytes_len(x: nat, n: nat)
    ensures
        le_bytes(x, n).len() == n,
    decreases n,
{
    if n > 0 {
        lemma_le_bytes_len(x / 256, (n - 1) as nat);
    }
}

/// Reading back the `n`-byte layout of a number that fits in `n` bytes gives
/// that number: the layout loses nothing.
pub proof fn lemma_le_value_of_le_bytes(x: nat, n: nat)
    requires
        x < pow256(n),
    ensures
        le_value(le_bytes(x, n)) == x,
    decreases n,
{
    if n > 0 {
        let rest = le_bytes(x / 256, (n - 1) as nat);
        let all = le_bytes(x, n);
        lemma_le_value_of_le_bytes(x / 256, (n - 1) as nat);
        assert(all.drop_first() =~= rest);
        assert(all[0] == (x % 256) as u8);
        assert(x == (x % 256) + 256 * (x / 256));
    }
}

/// Every `u64` fits in eight bytes, so its layout reads back as itself.
pub proof fn lemma_le_u64_round_trip(x: u64)
    ensures
        le_u64(x).len() == 8,
        le_value(le_u64(x)) == x,
{
    lemma_le_bytes_len(x as nat, 8);
    assert(pow256(8) == 0x1_0000_0000_0000_0000) by {
        reveal_with_fuel(pow256, 9);
    }
    lemma_le_value_of_le_bytes(x as nat, 8);
}

/// Every `u32` fits in four bytes, so its layout reads back as itself.
pub proof fn lemma_le_u32_round_trip(x: u32)
    ensures
        le_u32(x).len() == 4,
        le_value(le_u32(x)) == x,
{
    lemma_le_bytes_len(x as nat, 4);
    assert(pow256(4) == 0x1_0000_0000) by {
        reveal_with_fuel(pow256, 5);
    }
    lemma_le_value_of_le_bytes(x as nat, 4);
}

/// Appends `bytes` to `buf`.
pub fn push_bytes(buf: &mut Vec<u8>, bytes: &[u8])
    ensures
        final(buf)@ == old(buf)@ + bytes@,
{
    let len = bytes.len();
    let mut i: usize = 0;
    while i < len
        invariant
            i <= len,
            len == bytes@.len(),
            buf@ == old(buf)@ + bytes@.subrange(0, i as int),
        decreases len - i,
    {
        buf.push(bytes[i]);
        i = i + 1;
        assert(buf@ =~= old(buf)@ + bytes@.subrange(0, i as int));
    }
    assert(bytes@.subrange(0, len as int) =~= bytes@);
}

/// Appends the eight-byte little-endian layout of `x` to `buf`.
pub fn push_le_u64(buf: &mut Vec<u8>, x: u64)
    ensures
        final(buf)@ == old(buf)@ + le_u64(x),
{
    let mut rest: u64 = x;
    let mut i: usize = 0;
    while i < 8
        invariant
            i <= 8,
            old(buf)@ + le_bytes(x as nat, 8) == buf@ + le_bytes(rest as nat, (8 - i) as nat),
        decreases 8 - i,
    {
        let ghost before = buf@;
        let low: u8 = (rest % 256) as u8;
        buf.push(low);
        proof {
            let tail = le_bytes((rest / 256) as nat, (8 - i - 1) as nat);
            assert(le_bytes(rest as nat, (8 - i) as nat) == seq![low] + tail);
            assert(before + (seq![low] + tail) =~= before.push(low) + tail);
        }
        rest = rest / 256;
        i = i + 1;
    }
    assert(buf@ + le_bytes(rest as nat, 0) =~= buf@);
}

/// Appends the four-byte little-endian layout of `x` to `buf`.
pub fn push_le_u32(buf: &mut Vec<u8>, x: u32)
    ensures
        final(buf)@ == old(buf)@ + le_u32(x),
{
    let mut rest: u32 = x;
    let mut i: usize = 0;
    while i < 4
        invariant
            i <= 4,
            old(buf)@ + le_bytes(x as nat, 4) == buf@ + le_bytes(rest as nat, (4 - i) as nat),
        decreases 4 - i,
    {
        let ghost before = buf@;
        let low: u8 = (rest % 256) as u8;
        buf.push(low);
        proof {
            let tail = le_bytes((rest / 256) as nat, (4 - i - 1) as nat);
            assert(le_bytes(rest as nat, (4 - i) as nat) == seq![low] + tail);
            assert(before + (seq![low] + tail) =~= before.push(low) + tail);
        }
        rest = rest / 256;
        i = i + 1;
    }
    assert(buf@ + le_bytes(rest as nat, 0) =~= buf@);
}

} // verus!
