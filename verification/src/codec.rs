//! Byte-level encodings shared by the wire messages: big-endian integers,
//! the variable-length integer that prefixes the user-agent string, and the
//! two's-complement reinterpretation of signed fields.
//!
//! Little-endian encodings come from `vstd::bytes`; everything here is
//! defined in terms of those, so their round-trip lemmas carry over.

use vstd::prelude::*;
use vstd::bytes::{
    lemma_auto_spec_u16_to_from_le_bytes, lemma_auto_spec_u32_to_from_le_bytes,
    lemma_auto_spec_u64_to_from_le_bytes, spec_u16_from_le_bytes, spec_u16_to_le_bytes,
    spec_u32_from_le_bytes, spec_u32_to_le_bytes, spec_u64_from_le_bytes, spec_u64_to_le_bytes,
    u16_from_le_bytes, u16_to_le_bytes, u32_from_le_bytes, u32_to_le_bytes, u64_from_le_bytes,
    u64_to_le_bytes,
};
use vstd::slice::{slice_subrange, slice_to_vec};

verus! {

// ---------------------------------------------------------------------------
// Big-endian integers
// ---------------------------------------------------------------------------

pub open spec fn spec_u16_to_be_bytes(x: u16) -> Seq<u8> {
    spec_u16_to_le_bytes(x).reverse()
}

pub open spec fn spec_u16_from_be_bytes(s: Seq<u8>) -> u16
    recommends
        s.len() == 2,
{
    spec_u16_from_le_bytes(s.reverse())
}

pub open spec fn spec_u64_to_be_bytes(x: u64) -> Seq<u8> {
    spec_u64_to_le_bytes(x).reverse()
}

pub open spec fn spec_u64_from_be_bytes(s: Seq<u8>) -> u64
    recommends
        s.len() == 8,
{
    spec_u64_from_le_bytes(s.reverse())
}

pub proof fn lemma_u16_be_round_trip(x: u16)
    ensures
        spec_u16_to_be_bytes(x).len() == 2,
        spec_u16_from_be_bytes(spec_u16_to_be_bytes(x)) == x,
{
    lemma_auto_spec_u16_to_from_le_bytes();
    assert(spec_u16_to_be_bytes(x).reverse() =~= spec_u16_to_le_bytes(x));
}

pub proof fn lemma_u64_be_round_trip(x: u64)
    ensures
        spec_u64_to_be_bytes(x).len() == 8,
        spec_u64_from_be_bytes(spec_u64_to_be_bytes(x)) == x,
{
    lemma_auto_spec_u64_to_from_le_bytes();
    assert(spec_u64_to_be_bytes(x).reverse() =~= spec_u64_to_le_bytes(x));
}

// ---------------------------------------------------------------------------
// Appending encodings to an output buffer
// ---------------------------------------------------------------------------

pub fn push_u16_le(out: &mut Vec<u8>, x: u16)
    ensures
        final(out)@ == old(out)@ + spec_u16_to_le_bytes(x),
{
    let mut b = u16_to_le_bytes(x);
    out.append(&mut b);
}

pub fn push_u32_le(out: &mut Vec<u8>, x: u32)
    ensures
        final(out)@ == old(out)@ + spec_u32_to_le_bytes(x),
{
    let mut b = u32_to_le_bytes(x);
    out.append(&mut b);
}

pub fn push_u64_le(out: &mut Vec<u8>, x: u64)
    ensures
        final(out)@ == old(out)@ + spec_u64_to_le_bytes(x),
{
    let mut b = u64_to_le_bytes(x);
    out.append(&mut b);
}

pub fn push_u16_be(out: &mut Vec<u8>, x: u16)
    ensures
        final(out)@ == old(out)@ + spec_u16_to_be_bytes(x),
{
    proof {
        lemma_auto_spec_u16_to_from_le_bytes();
    }
    let b = u16_to_le_bytes(x);
    out.push(b[1]);
    out.push(b[0]);
    assert(out@ =~= old(out)@ + spec_u16_to_be_bytes(x));
}

pub fn push_u64_be(out: &mut Vec<u8>, x: u64)
    ensures
        final(out)@ == old(out)@ + spec_u64_to_be_bytes(x),
{
    proof {
        lemma_auto_spec_u64_to_from_le_bytes();
    }
    let b = u64_to_le_bytes(x);
    let mut i: usize = 8;
    while i > 0
        invariant
            b@ == spec_u64_to_le_bytes(x),
            b@.len() == 8,
            i <= 8,
            out@ =~= old(out)@ + spec_u64_to_be_bytes(x).take(8 - i as int),
        decreases i,
    {
        i = i - 1;
        out.push(b[i]);
        assert(out@ =~= old(out)@ + spec_u64_to_be_bytes(x).take(8 - i as int));
    }
    assert(out@ =~= old(out)@ + spec_u64_to_be_bytes(x));
}

// ---------------------------------------------------------------------------
// Reading encodings out of a byte slice
// ---------------------------------------------------------------------------

pub fn read_u32_le(b: &[u8], off: usize) -> (r: u32)
    requires
        off + 4 <= b@.len(),
    ensures
        r == spec_u32_from_le_bytes(b@.subrange(off as int, off + 4)),
{
    // ties the view length to usize, so the end offset cannot overflow
    let _len = b.len();
    let s = slice_subrange(b, off, off + 4);
    u32_from_le_bytes(s)
}

pub fn read_u64_le(b: &[u8], off: usize) -> (r: u64)
    requires
        off + 8 <= b@.len(),
    ensures
        r == spec_u64_from_le_bytes(b@.subrange(off as int, off + 8)),
{
    // ties the view length to usize, so the end offset cannot overflow
    let _len = b.len();
    let s = slice_subrange(b, off, off + 8);
    u64_from_le_bytes(s)
}

pub fn read_u16_le(b: &[u8], off: usize) -> (r: u16)
    requires
        off + 2 <= b@.len(),
    ensures
        r == spec_u16_from_le_bytes(b@.subrange(off as int, off + 2)),
{
    // ties the view length to usize, so the end offset cannot overflow
    let _len = b.len();
    let s = slice_subrange(b, off, off + 2);
    u16_from_le_bytes(s)
}

pub fn read_u16_be(b: &[u8], off: usize) -> (r: u16)
    requires
        off + 2 <= b@.len(),
    ensures
        r == spec_u16_from_be_bytes(b@.subrange(off as int, off + 2)),
{
    // ties the view length to usize, so the end offset cannot overflow
    let _len = b.len();
    let mut le: Vec<u8> = Vec::new();
    le.push(b[off + 1]);
    le.push(b[off]);
    assert(le@ =~= b@.subrange(off as int, off + 2).reverse());
    u16_from_le_bytes(le.as_slice())
}

pub fn read_u64_be(b: &[u8], off: usize) -> (r: u64)
    requires
        off + 8 <= b@.len(),
    ensures
        r == spec_u64_from_be_bytes(b@.subrange(off as int, off + 8)),
{
    let n = b.len();
    let mut le: Vec<u8> = Vec::new();
    let mut i: usize = 8;
    while i > 0
        invariant
            off + 8 <= n == b@.len(),
            i <= 8,
            le@ =~= b@.subrange(off as int, off + 8).reverse().take(8 - i as int),
        decreases i,
    {
        i = i - 1;
        le.push(b[off + i]);
        assert(le@ =~= b@.subrange(off as int, off + 8).reverse().take(8 - i as int));
    }
    assert(le@ =~= b@.subrange(off as int, off + 8).reverse());
    u64_from_le_bytes(le.as_slice())
}

// ---------------------------------------------------------------------------
// Copying and comparing byte ranges
// ---------------------------------------------------------------------------

/// Copies `b[start..end]` into a fresh vector.
pub fn copy_range(b: &[u8], start: usize, end: usize) -> (r: Vec<u8>)
    requires
        start <= end <= b@.len(),
    ensures
        r@ == b@.subrange(start as int, end as int),
{
    let s = slice_subrange(b, start, end);
    slice_to_vec(s)
}

/// Byte-for-byte equality of two slices.
pub fn bytes_eq(a: &[u8], b: &[u8]) -> (r: bool)
    ensures
        r <==> a@ == b@,
{
    if a.len() != b.len() {
        return false;
    }
    let n = a.len();
    let mut i: usize = 0;
    while i < n
        invariant
            n == a@.len() == b@.len(),
            i <= n,
            forall|j: int| 0 <= j < i ==> a@[j] == b@[j],
        decreases n - i,
    {
        if a[i] != b[i] {
            return false;
        }
        i = i + 1;
    }
    assert(a@ =~= b@);
    true
}

// ---------------------------------------------------------------------------
// Signed fields as their unsigned two's-complement wire value
// ---------------------------------------------------------------------------

pub open spec fn spec_i64_to_u64(x: i64) -> u64 {
    if x >= 0 {
        x as u64
    } else {
        (x + 0x1_0000_0000_0000_0000) as u64
    }
}

pub open spec fn spec_u64_to_i64(u: u64) -> i64 {
    if u < 0x8000_0000_0000_0000 {
        u as i64
    } else {
        (u - 0x1_0000_0000_0000_0000) as i64
    }
}

pub open spec fn spec_i32_to_u32(x: i32) -> u32 {
    if x >= 0 {
        x as u32
    } else {
        (x + 0x1_0000_0000) as u32
    }
}

pub open spec fn spec_u32_to_i32(u: u32) -> i32 {
    if u < 0x8000_0000 {
        u as i32
    } else {
        (u - 0x1_0000_0000) as i32
    }
}

pub proof fn lemma_i64_u64_round_trip(x: i64)
    ensures
        spec_u64_to_i64(spec_i64_to_u64(x)) == x,
{
}

pub proof fn lemma_i32_u32_round_trip(x: i32)
    ensures
        spec_u32_to_i32(spec_i32_to_u32(x)) == x,
{
}

pub fn i64_to_u64(x: i64) -> (r: u64)
    ensures
        r == spec_i64_to_u64(x),
{
    if x >= 0 {
        x as u64
    } else {
        ((x as i128) + 0x1_0000_0000_0000_0000i128) as u64
    }
}

pub fn u64_to_i64(u: u64) -> (r: i64)
    ensures
        r == spec_u64_to_i64(u),
{
    if u < 0x8000_0000_0000_0000 {
        u as i64
    } else {
        ((u as i128) - 0x1_0000_0000_0000_0000i128) as i64
    }
}

pub fn i32_to_u32(x: i32) -> (r: u32)
    ensures
        r == spec_i32_to_u32(x),
{
    if x >= 0 {
        x as u32
    } else {
        ((x as i64) + 0x1_0000_0000i64) as u32
    }
}

pub fn u32_to_i32(u: u32) -> (r: i32)
    ensures
        r == spec_u32_to_i32(u),
{
    if u < 0x8000_0000 {
        u as i32
    } else {
        ((u as i64) - 0x1_0000_0000i64) as i32
    }
}

// ---------------------------------------------------------------------------
// Compact size: the protocol's variable-length unsigned integer
// ---------------------------------------------------------------------------

/// The variable-length encoding of `n`: one byte for values below 0xFD,
/// otherwise a one-byte tag followed by the little-endian encoding of the
/// smallest unsigned width that holds `n`.
pub open spec fn spec_compact_size(n: u64) -> Seq<u8> {
    if n < 0xFD {
        seq![n as u8]
    } else if n <= 0xFFFF {
        seq![0xFDu8] + spec_u16_to_le_bytes(n as u16)
    } else if n <= 0xFFFF_FFFF {
        seq![0xFEu8] + spec_u32_to_le_bytes(n as u32)
    } else {
        seq![0xFFu8] + spec_u64_to_le_bytes(n)
    }
}

/// Decodes a compact-size value from the front of `b`, yielding the value
/// and the number of bytes consumed. `None` when the bytes run out or the
/// encoding is not the minimal one for its value.
pub open spec fn spec_decode_compact_size(b: Seq<u8>) -> Option<(u64, int)> {
    if b.len() < 1 {
        None
    } else {
        let tag = b[0];
        if tag < 0xFD {
            Some((tag as u64, 1))
        } else if tag == 0xFD {
            if b.len() < 3 {
                None
            } else {
                let v = spec_u16_from_le_bytes(b.subrange(1, 3));
                if v >= 0xFD {
                    Some((v as u64, 3))
                } else {
                    None
                }
            }
        } else if tag == 0xFE {
            if b.len() < 5 {
                None
            } else {
                let v = spec_u32_from_le_bytes(b.subrange(1, 5));
                if v > 0xFFFF {
                    Some((v as u64, 5))
                } else {
                    None
                }
            }
        } else {
            if b.len() < 9 {
                None
            } else {
                let v = spec_u64_from_le_bytes(b.subrange(1, 9));
                if v > 0xFFFF_FFFF {
                    Some((v, 9))
                } else {
                    None
                }
            }
        }
    }
}

/// Decoding reads back exactly what encoding wrote, regardless of what
/// follows it in the buffer.
pub proof fn lemma_compact_size_round_trip(n: u64, rest: Seq<u8>)
    ensures
        spec_decode_compact_size(spec_compact_size(n) + rest) == Some(
            (n, spec_compact_size(n).len() as int),
        ),
{
    lemma_auto_spec_u16_to_from_le_bytes();
    lemma_auto_spec_u32_to_from_le_bytes();
    lemma_auto_spec_u64_to_from_le_bytes();
    let b = spec_compact_size(n) + rest;
    if n < 0xFD {
    } else if n <= 0xFFFF {
        assert(b.subrange(1, 3) =~= spec_u16_to_le_bytes(n as u16));
    } else if n <= 0xFFFF_FFFF {
        assert(b.subrange(1, 5) =~= spec_u32_to_le_bytes(n as u32));
    } else {
        assert(b.subrange(1, 9) =~= spec_u64_to_le_bytes(n));
    }
}

pub fn push_compact_size(out: &mut Vec<u8>, n: u64)
    ensures
        final(out)@ == old(out)@ + spec_compact_size(n),
{
    if n < 0xFD {
        out.push(n as u8);
        assert(out@ =~= old(out)@ + spec_compact_size(n));
    } else if n <= 0xFFFF {
        out.push(0xFD);
        push_u16_le(out, n as u16);
        assert(out@ =~= old(out)@ + spec_compact_size(n));
    } else if n <= 0xFFFF_FFFF {
        out.push(0xFE);
        push_u32_le(out, n as u32);
        assert(out@ =~= old(out)@ + spec_compact_size(n));
    } else {
        out.push(0xFF);
        push_u64_le(out, n);
        assert(out@ =~= old(out)@ + spec_compact_size(n));
    }
}

/// Reads a compact-size value starting at `off`; mirrors
/// [`spec_decode_compact_size`] applied to the bytes from `off` on.
pub fn read_compact_size(b: &[u8], off: usize) -> (r: Option<(u64, usize)>)
    requires
        off <= b@.len(),
    ensures
        match r {
            Some((v, n)) => spec_decode_compact_size(b@.skip(off as int)) == Some((v, n as int)),
            None => spec_decode_compact_size(b@.skip(off as int)) is None,
        },
{
    let ghost tail = b@.skip(off as int);
    if b.len() - off < 1 {
        return None;
    }
    let tag = b[off];
    assert(tag == tail[0]);
    if tag < 0xFD {
        Some((tag as u64, 1))
    } else if tag == 0xFD {
        if b.len() - off < 3 {
            return None;
        }
        let v = read_u16_le(b, off + 1);
        assert(b@.subrange(off + 1, off + 3) =~= tail.subrange(1, 3));
        if v >= 0xFD {
            Some((v as u64, 3))
        } else {
            None
        }
    } else if tag == 0xFE {
        if b.len() - off < 5 {
            return None;
        }
        let v = read_u32_le(b, off + 1);
        assert(b@.subrange(off + 1, off + 5) =~= tail.subrange(1, 5));
        if v > 0xFFFF {
            Some((v as u64, 5))
        } else {
            None
        }
    } else {
        if b.len() - off < 9 {
            return None;
        }
        let v = read_u64_le(b, off + 1);
        assert(b@.subrange(off + 1, off + 9) =~= tail.subrange(1, 9));
        if v > 0xFFFF_FFFF {
            Some((v, 9))
        } else {
            None
        }
    }
}

} // verus!
