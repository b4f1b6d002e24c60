//! Canonical, deterministic binary encoding primitives: fixed-width integers
//! in little-endian byte order and ULEB128 length prefixes. Every wire value
//! of this crate is built from these, so that logically identical values
//! serialize to byte-identical encodings.

use vstd::prelude::*;

verus! {

/// The four bytes of a 32-bit integer, least significant first.
pub open spec fn u32_le_bytes(x: u32) -> Seq<u8> {
    seq![
        (x as nat % 256) as u8,
        ((x as nat / 256) % 256) as u8,
        ((x as nat / 0x10000) % 256) as u8,
        ((x as nat / 0x1000000) % 256) as u8,
    ]
}

/// The eight bytes of a 64-bit integer, least significant first.
pub open spec fn u64_le_bytes(x: u64) -> Seq<u8> {
    seq![
        (x as nat % 256) as u8,
        ((x as nat / 256) % 256) as u8,
        ((x as nat / 0x10000) % 256) as u8,
        ((x as nat / 0x1000000) % 256) as u8,
        ((x as nat / 0x100000000) % 256) as u8,
        ((x as nat / 0x10000000000) % 256) as u8,
        ((x as nat / 0x1000000000000) % 256) as u8,
        ((x as nat / 0x100000000000000) % 256) as u8,
    ]
}

/// ULEB128 encoding of an unsigned integer: seven payload bits per byte,
/// least significant group first, high bit set on every byte but the last.
pub open spec fn uleb128(n: nat) -> Seq<u8>
    decreases n,
{
    if n < 128 {
        seq![n as u8]
    } else {
        seq![(128 + n % 128) as u8] + uleb128(n / 128)
    }
}

/// A variable-size byte field: ULEB128 length prefix followed by the bytes.
pub open spec fn encode_bytes(s: Seq<u8>) -> Seq<u8> {
    uleb128(s.len()) + s
}

/// Appends the little-endian bytes of `x` to `out`.
pub fn encode_u32_le(x: u32, out: &mut Vec<u8>)
    ensures
        final(out)@ == old(out)@ + u32_le_bytes(x),
{
    out.push((x % 256) as u8);
    out.push(((x / 256) % 256) as u8);
    out.push(((x / 0x10000) % 256) as u8);
    out.push((x / 0x1000000) as u8);
    assert(out@ =~= old(out)@ + u32_le_bytes(x));
}

/// Appends the little-endian bytes of `x` to `out`.
pub fn encode_u64_le(x: u64, out: &mut Vec<u8>)
    ensures
        final(out)@ == old(out)@ + u64_le_bytes(x),
{
    out.push((x % 256) as u8);
    out.push(((x / 256) % 256) as u8);
    out.push(((x / 0x10000) % 256) as u8);
    out.push(((x / 0x1000000) % 256) as u8);
    out.push(((x / 0x100000000) % 256) as u8);
    out.push(((x / 0x10000000000) % 256) as u8);
    out.push(((x / 0x1000000000000) % 256) as u8);
    out.push((x / 0x100000000000000) as u8);
    assert(out@ =~= old(out)@ + u64_le_bytes(x));
}

/// Appends the ULEB128 encoding of `n` to `out`.
pub fn encode_uleb128(n: u64, out: &mut Vec<u8>)
    ensures
        final(out)@ == old(out)@ + uleb128(n as nat),
{
    let mut v: u64 = n;
    while v >= 128
        invariant
            out@ + uleb128(v as nat) == old(out)@ + uleb128(n as nat),
        decreases v,
    {
        let ghost prev = out@;
        let ghost pv = v as nat;
        out.push((128 + (v % 128)) as u8);
        v = v / 128;
        assert(uleb128(pv) == seq![(128 + pv % 128) as u8] + uleb128(pv / 128));
        assert(out@ + uleb128(v as nat) =~= prev + uleb128(pv));
    }
    out.push(v as u8);
    assert(uleb128(v as nat) =~= seq![v as u8]);
    assert(out@ =~= old(out)@ + uleb128(n as nat));
}

/// Appends the bytes of `s` to `out`, with no length prefix.
pub fn append_byte_slice(s: &[u8], out: &mut Vec<u8>)
    ensures
        final(out)@ == old(out)@ + s@,
{
    let mut i: usize = 0;
    while i < s.len()
        invariant
            0 <= i <= s@.len(),
            out@ == old(out)@ + s@.take(i as int),
        decreases s@.len() - i,
    {
        out.push(s[i]);
        i = i + 1;
        assert(out@ =~= old(out)@ + s@.take(i as int));
    }
    assert(s@.take(s@.len() as int) =~= s@);
}

/// Appends the length-prefixed encoding of the byte slice `s` to `out`.
pub fn encode_byte_slice(s: &[u8], out: &mut Vec<u8>)
    ensures
        final(out)@ == old(out)@ + encode_bytes(s@),
{
    encode_uleb128(s.len() as u64, out);
    append_byte_slice(s, out);
    assert(out@ =~= old(out)@ + encode_bytes(s@));
}

} // verus!
