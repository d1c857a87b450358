use vstd::prelude::*;
use crate::pubkey::Pubkey;

verus! {

/// The number that a sequence of bytes spells, least significant byte
/// first.
pub open spec fn le_value(s: Seq<u8>) -> nat
    decreases s.len(),
{
    if s.len() == 0 {
        0
    } else {
        s[0] as nat + 256 * le_value(s.skip(1))
    }
}

/// The 64-bit number that the eight bytes from `offset` spell.
pub open spec fn u64_at(data: Seq<u8>, offset: int) -> u64 {
    le_value(data.subrange(offset, offset + 8)) as u64
}

/// 256 to the power `n`.
pub open spec fn pow256(n: nat) -> nat
    decreases n,
{
    if n == 0 {
        1
    } else {
        256 * pow256((n - 1) as nat)
    }
}

/// A number spelled by `n` bytes is below 256 to the power `n`.
pub proof fn lemma_le_value_bound(s: Seq<u8>)
    ensures
        le_value(s) < pow256(s.len()),
    decreases s.len(),
{
    if s.len() > 0 {
        lemma_le_value_bound(s.skip(1));
    }
}

/// `pow256` grows with its argument.
pub proof fn lemma_pow256_monotonic(a: nat, b: nat)
    requires
        a <= b,
    ensures
        0 < pow256(a) <= pow256(b),
    decreases b,
{
    if a < b {
        lemma_pow256_monotonic(a, (b - 1) as nat);
    } else if a > 0 {
        lemma_pow256_monotonic((a - 1) as nat, (a - 1) as nat);
    }
}

/// The values of `pow256` at the widths of the integer types.
pub proof fn lemma_pow256_widths()
    ensures
        pow256(4) == 0x1_0000_0000,
        pow256(8) == 0x1_0000_0000_0000_0000,
        pow256(16) == 0x1_0000_0000_0000_0000_0000_0000_0000_0000,
{
    reveal_with_fuel(pow256, 17);
}

/// Reads `width` bytes from `offset` as one number, least significant byte
/// first.
fn read_le(data: &[u8], offset: usize, width: usize) -> (v: u128)
    requires
        width <= 16,
        offset + width <= data@.len(),
    ensures
        v == le_value(data@.subrange(offset as int, offset + width)),
        v < pow256(width as nat),
{
    let ghost field = data@.subrange(offset as int, offset + width);
    let len: usize = data.len();
    let mut acc: u128 = 0;
    let mut k: usize = width;
    proof {
        assert(field.skip(width as int) =~= Seq::<u8>::empty());
        lemma_pow256_widths();
    }
    while k > 0
        invariant
            k <= width <= 16,
            offset + width <= data@.len() == len,
            field == data@.subrange(offset as int, offset + width),
            acc == le_value(field.skip(k as int)),
            acc < pow256((width - k) as nat),
        decreases k,
    {
        proof {
            lemma_pow256_monotonic((width - k + 1) as nat, 16);
            lemma_pow256_widths();
            assert(field.skip(k - 1).skip(1) =~= field.skip(k as int));
            assert(field.skip(k - 1)[0] == data@[offset + k - 1]);
        }
        k = k - 1;
        acc = acc * 256 + data[offset + k] as u128;
    }
    proof {
        assert(field.skip(0) =~= field);
    }
    acc
}

/// Reads a 32-bit number at `offset`.
pub fn read_u32_le(data: &[u8], offset: usize) -> (v: u32)
    requires
        offset + 4 <= data@.len(),
    ensures
        v == le_value(data@.subrange(offset as int, offset + 4)),
{
    proof {
        lemma_pow256_widths();
    }
    read_le(data, offset, 4) as u32
}

/// Reads a 64-bit number at `offset`.
pub fn read_u64_le(data: &[u8], offset: usize) -> (v: u64)
    requires
        offset + 8 <= data@.len(),
    ensures
        v == le_value(data@.subrange(offset as int, offset + 8)),
        v == u64_at(data@, offset as int),
{
    proof {
        lemma_pow256_widths();
    }
    read_le(data, offset, 8) as u64
}

/// Reads a 128-bit number at `offset`.
pub fn read_u128_le(data: &[u8], offset: usize) -> (v: u128)
    requires
        offset + 16 <= data@.len(),
    ensures
        v == le_value(data@.subrange(offset as int, offset + 16)),
{
    proof {
        lemma_pow256_widths();
    }
    read_le(data, offset, 16)
}

/// Reads a 32-byte key at `offset`.
pub fn read_pubkey(data: &[u8], offset: usize) -> (key: Pubkey)
    requires
        offset + 32 <= data@.len(),
    ensures
        key@ == data@.subrange(offset as int, offset + 32),
{
    let len: usize = data.len();
    let mut bytes: [u8; 32] = [0u8; 32];
    let mut i: usize = 0;
    while i < 32
        invariant
            i <= 32,
            offset + 32 <= data@.len() == len,
            forall|j: int| 0 <= j < i ==> bytes@[j] == data@[offset + j],
        decreases 32 - i,
    {
        bytes[i] = data[offset + i];
        i = i + 1;
    }
    assert(bytes@ =~= data@.subrange(offset as int, offset + 32));
    Pubkey { bytes }
}

/// Whether `data` begins with the eight bytes of `discriminator`.
pub fn has_discriminator(data: &[u8], discriminator: &[u8; 8]) -> (r: bool)
    ensures
        r == (data@.len() >= 8 && data@.subrange(0, 8) == discriminator@),
{
    if data.len() < 8 {
        return false;
    }
    let mut i: usize = 0;
    while i < 8
        invariant
            i <= 8,
            data@.len() >= 8,
            forall|j: int| 0 <= j < i ==> data@[j] == discriminator@[j],
        decreases 8 - i,
    {
        if data[i] != discriminator[i] {
            assert(data@.subrange(0, 8)[i as int] != discriminator@[i as int]);
            return false;
        }
        i = i + 1;
    }
    assert(data@.subrange(0, 8) =~= discriminator@);
    true
}

/// The `width` bytes that spell `v`, least significant byte first.
pub open spec fn le_bytes(v: nat, width: nat) -> Seq<u8>
    decreases width,
{
    if width == 0 {
        Seq::empty()
    } else {
        seq![(v % 256) as u8] + le_bytes(v / 256, (width - 1) as nat)
    }
}

/// Spelling a number and reading it back gives the number, when the width
/// is enough for it.
pub proof fn lemma_le_bytes_round_trip(v: nat, width: nat)
    requires
        v < pow256(width),
    ensures
        le_bytes(v, width).len() == width,
        le_value(le_bytes(v, width)) == v,
    decreases width,
{
    if width > 0 {
        let rest = le_bytes(v / 256, (width - 1) as nat);
        lemma_le_bytes_round_trip(v / 256, (width - 1) as nat);
        assert(le_bytes(v, width).skip(1) =~= rest);
    }
}

/// Appends the bytes of `bytes` to `out`.
pub fn push_all(out: &mut Vec<u8>, bytes: &[u8])
    ensures
        final(out)@ == old(out)@ + bytes@,
{
    let ghost start = out@;
    let mut i: usize = 0;
    while i < bytes.len()
        invariant
            i <= bytes@.len(),
            out@ == start + bytes@.take(i as int),
        decreases bytes.len() - i,
    {
        proof {
            assert(bytes@.take(i + 1) =~= bytes@.take(i as int).push(bytes@[i as int]));
        }
        out.push(bytes[i]);
        i = i + 1;
    }
    proof {
        assert(bytes@.take(i as int) =~= bytes@);
    }
}

/// Appends the eight bytes of `v`, least significant byte first.
pub fn push_u64_le(out: &mut Vec<u8>, v: u64)
    ensures
        final(out)@ == old(out)@ + le_bytes(v as nat, 8),
{
    let ghost start = out@;
    let mut rest: u64 = v;
    let mut i: usize = 0;
    while i < 8
        invariant
            i <= 8,
            out@ + le_bytes(rest as nat, (8 - i) as nat) == start + le_bytes(v as nat, 8),
        decreases 8 - i,
    {
        proof {
            assert(out@.push((rest % 256) as u8) + le_bytes((rest / 256) as nat, (7 - i) as nat)
                =~= out@ + le_bytes(rest as nat, (8 - i) as nat));
        }
        out.push((rest % 256) as u8);
        rest = rest / 256;
        i = i + 1;
    }
    proof {
        assert(out@ + le_bytes(rest as nat, 0) =~= out@);
    }
}

} // verus!
