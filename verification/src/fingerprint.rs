//! Canonical byte encoding primitives and the 64-bit fingerprint hash.
//!
//! Identity of a condition is a deterministic hash of a canonical,
//! order-stable byte serialization: little-endian fixed-width integers,
//! length-prefixed UTF-8 strings, and a fixed tag byte per variant. The
//! hash is the 64-bit Fowler–Noll–Vo (FNV-1a) fold of those bytes.
use vstd::prelude::*;
use vstd::string::StrSliceExecFns;

verus! {

/// The `n` little-endian base-256 digits of `x`.
pub open spec fn spec_le_bytes(x: nat, n: nat) -> Seq<u8>
    decreases n,
{
    if n == 0 {
        Seq::empty()
    } else {
        seq![(x % 256) as u8] + spec_le_bytes(x / 256, (n - 1) as nat)
    }
}

/// The UTF-8 bytes of a string.
pub open spec fn spec_utf8(s: Seq<char>) -> Seq<u8> {
    vstd::utf8::encode_utf8(s)
}

/// The canonical encoding of a string: its UTF-8 byte length as eight
/// little-endian bytes, then its UTF-8 bytes.
pub open spec fn spec_encode_str(s: Seq<char>) -> Seq<u8> {
    spec_le_bytes(spec_utf8(s).len(), 8) + spec_utf8(s)
}

/// One step of the 64-bit FNV-1a fold: mix a byte in by exclusive-or, then
/// multiply by the FNV prime modulo two to the sixty-fourth.
pub open spec fn spec_fnv1a_step(h: u64, b: u8) -> u64 {
    ((((h ^ (b as u64)) as nat) * 0x100000001b3) % 0x1_0000_0000_0000_0000) as u64
}

/// The 64-bit FNV-1a fold of a byte sequence from an accumulator.
pub open spec fn spec_fnv1a(bytes: Seq<u8>, h: u64) -> u64
    decreases bytes,
{
    if bytes.len() == 0 {
        h
    } else {
        spec_fnv1a(bytes.drop_first(), spec_fnv1a_step(h, bytes[0]))
    }
}

/// The 64-bit FNV-1a hash of a byte sequence, from the standard offset
/// basis.
pub open spec fn spec_fingerprint(bytes: Seq<u8>) -> u64 {
    spec_fnv1a(bytes, 0xcbf29ce484222325)
}

/// Append the eight little-endian bytes of a 64-bit integer.
pub fn push_le_u64(out: &mut Vec<u8>, x: u64)
    ensures
        final(out)@ == old(out)@ + spec_le_bytes(x as nat, 8),
{
    let mut v: u64 = x;
    let mut k: usize = 0;
    while k < 8
        invariant
            k <= 8,
            out@ + spec_le_bytes(v as nat, (8 - k) as nat) == old(out)@ + spec_le_bytes(
                x as nat,
                8,
            ),
        decreases 8 - k,
    {
        out.push((v % 256) as u8);
        v = v / 256;
        k = k + 1;
    }
}

/// Append the sixteen little-endian bytes of a 128-bit integer.
pub fn push_le_u128(out: &mut Vec<u8>, x: u128)
    ensures
        final(out)@ == old(out)@ + spec_le_bytes(x as nat, 16),
{
    let mut v: u128 = x;
    let mut k: usize = 0;
    while k < 16
        invariant
            k <= 16,
            out@ + spec_le_bytes(v as nat, (16 - k) as nat) == old(out)@ + spec_le_bytes(
                x as nat,
                16,
            ),
        decreases 16 - k,
    {
        out.push((v % 256) as u8);
        v = v / 256;
        k = k + 1;
    }
}

/// Append the canonical encoding of a string: length, then UTF-8 bytes.
pub fn push_str_encoding(out: &mut Vec<u8>, s: &String)
    ensures
        final(out)@ == old(out)@ + spec_encode_str(s@),
{
    let bytes = s.as_str().as_bytes_vec();
    let len64: u64 = bytes.len() as u64;
    push_le_u64(out, len64);
    let n = bytes.len();
    for i in 0..n
        invariant
            n == bytes.len(),
            bytes@ == spec_utf8(s@),
            out@ == old(out)@ + spec_le_bytes(spec_utf8(s@).len(), 8) + bytes@.take(i as int),
        decreases n - i,
    {
        out.push(bytes[i]);
        proof {
            assert(bytes@.take(i + 1) =~= bytes@.take(i as int).push(bytes@[i as int]));
            assert(out@ == old(out)@ + spec_le_bytes(spec_utf8(s@).len(), 8) + bytes@.take(i + 1));
        }
    }
    proof {
        assert(bytes@.take(n as int) =~= bytes@);
    }
}

/// The 64-bit FNV-1a hash of the given bytes.
pub fn fnv1a_hash(bytes: &Vec<u8>) -> (r: u64)
    ensures
        r == spec_fingerprint(bytes@),
{
    let mut h: u64 = 0xcbf29ce484222325;
    let n = bytes.len();
    proof {
        assert(bytes@.skip(0) =~= bytes@);
    }
    for i in 0..n
        invariant
            n == bytes.len(),
            spec_fnv1a(bytes@.skip(i as int), h) == spec_fingerprint(bytes@),
        decreases n - i,
    {
        let b = bytes[i];
        h = (h ^ (b as u64)).wrapping_mul(0x100000001b3);
        proof {
            assert(bytes@.skip(i as int).drop_first() =~= bytes@.skip(i as int + 1));
        }
    }
    h
}

} // verus!
