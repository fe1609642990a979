//! Fixed little-endian byte layouts of the integers mixed into digests.
use vstd::prelude::*;

verus! {

/// The eight little-endian bytes of an unsigned 64-bit value.
pub open spec fn le_bytes_of(v: nat) -> Seq<u8> {
    seq![
        (v % 0x100) as u8,
        ((v / 0x100) % 0x100) as u8,
        ((v / 0x1_0000) % 0x100) as u8,
        ((v / 0x100_0000) % 0x100) as u8,
        ((v / 0x1_0000_0000) % 0x100) as u8,
        ((v / 0x100_0000_0000) % 0x100) as u8,
        ((v / 0x1_0000_0000_0000) % 0x100) as u8,
        ((v / 0x100_0000_0000_0000) % 0x100) as u8,
    ]
}

/// Bytes of a `u64`, least significant first.
pub open spec fn u64_le(v: u64) -> Seq<u8> {
    le_bytes_of(v as nat)
}

/// The two's complement bit pattern of an `i64`, read as an unsigned value.
pub open spec fn i64_bits(v: i64) -> nat {
    if v >= 0 {
        v as nat
    } else {
        (v + 0x1_0000_0000_0000_0000) as nat
    }
}

/// Bytes of an `i64` in two's complement, least significant first.
pub open spec fn i64_le(v: i64) -> Seq<u8> {
    le_bytes_of(i64_bits(v))
}

/// The unsigned value of the first eight bytes of `s`, least significant first.
pub open spec fn le_u64_value(s: Seq<u8>) -> int {
    s[0] + 0x100 * s[1] + 0x1_0000 * s[2] + 0x100_0000 * s[3] + 0x1_0000_0000 * s[4]
        + 0x100_0000_0000 * s[5] + 0x1_0000_0000_0000 * s[6] + 0x100_0000_0000_0000 * s[7]
}

/// Appends the eight little-endian bytes of `v` to `out`.
pub fn push_u64_le(out: &mut Vec<u8>, v: u64)
    ensures
        final(out)@ == old(out)@ + u64_le(v),
{
    out.push((v % 0x100) as u8);
    out.push(((v / 0x100) % 0x100) as u8);
    out.push(((v / 0x1_0000) % 0x100) as u8);
    out.push(((v / 0x100_0000) % 0x100) as u8);
    out.push(((v / 0x1_0000_0000) % 0x100) as u8);
    out.push(((v / 0x100_0000_0000) % 0x100) as u8);
    out.push(((v / 0x1_0000_0000_0000) % 0x100) as u8);
    out.push(((v / 0x100_0000_0000_0000) % 0x100) as u8);
    assert(final(out)@ =~= old(out)@ + u64_le(v));
}

/// The two's complement bit pattern of `v` as a `u64`.
pub fn i64_to_bits(v: i64) -> (r: u64)
    ensures
        r as nat == i64_bits(v),
{
    if v >= 0 {
        v as u64
    } else {
        let shifted: i64 = v + 9_223_372_036_854_775_807 + 1;
        shifted as u64 + 9_223_372_036_854_775_808u64
    }
}

/// Appends the eight little-endian two's complement bytes of `v` to `out`.
pub fn push_i64_le(out: &mut Vec<u8>, v: i64)
    ensures
        final(out)@ == old(out)@ + i64_le(v),
{
    let bits = i64_to_bits(v);
    push_u64_le(out, bits);
}

/// Appends every byte of `bytes` to `out`, in order.
pub fn push_bytes(out: &mut Vec<u8>, bytes: &[u8])
    ensures
        final(out)@ == old(out)@ + bytes@,
{
    let ghost start = out@;
    let mut i: usize = 0;
    while i < bytes.len()
        invariant
            i <= bytes@.len(),
            out@ == start + bytes@.subrange(0, i as int),
        decreases bytes@.len() - i,
    {
        out.push(bytes[i]);
        i = i + 1;
        assert(out@ =~= start + bytes@.subrange(0, i as int));
    }
    assert(bytes@.subrange(0, bytes@.len() as int) =~= bytes@);
}

/// Reads the first eight bytes of `d` as a little-endian unsigned integer.
pub fn read_u64_le(d: &[u8; 32]) -> (r: u64)
    ensures
        r == le_u64_value(d@),
{
    d[0] as u64 + 0x100 * (d[1] as u64) + 0x1_0000 * (d[2] as u64) + 0x100_0000 * (d[3] as u64)
        + 0x1_0000_0000 * (d[4] as u64) + 0x100_0000_0000 * (d[5] as u64)
        + 0x1_0000_0000_0000 * (d[6] as u64) + 0x100_0000_0000_0000 * (d[7] as u64)
}

} // verus!
