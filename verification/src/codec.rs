//! Little-endian field encoders and decoders for the record byte format.
//!
//! Every persistent record is a fixed-size byte image: unsigned fields are
//! little-endian, signed fields are their two's-complement 64-bit image,
//! flags are a single byte holding zero or one.

use crate::address::Address;
use vstd::bytes::{
    lemma_auto_spec_u64_to_from_le_bytes, spec_u16_from_le_bytes, spec_u16_to_le_bytes,
    spec_u32_from_le_bytes, spec_u32_to_le_bytes, spec_u64_from_le_bytes, spec_u64_to_le_bytes,
    u16_from_le_bytes, u16_to_le_bytes, u32_from_le_bytes, u32_to_le_bytes, u64_from_le_bytes,
    u64_to_le_bytes,
};
use vstd::prelude::*;

verus! {

/// The unsigned 64-bit image of a signed timestamp: two's complement.
pub open spec fn spec_i64_as_u64(x: i64) -> u64 {
    if x >= 0 {
        x as u64
    } else {
        (x + 0x1_0000_0000_0000_0000) as u64
    }
}

/// The signed reading of an unsigned 64-bit image: two's complement.
pub open spec fn spec_u64_as_i64(y: u64) -> i64 {
    if y < 0x8000_0000_0000_0000 {
        y as i64
    } else {
        (y - 0x1_0000_0000_0000_0000) as i64
    }
}

/// The unsigned 32-bit image of a signed count: two's complement.
pub open spec fn spec_i32_as_u32(x: i32) -> u32 {
    if x >= 0 {
        x as u32
    } else {
        (x + 0x1_0000_0000) as u32
    }
}

/// The signed reading of an unsigned 32-bit image: two's complement.
pub open spec fn spec_u32_as_i32(y: u32) -> i32 {
    if y < 0x8000_0000 {
        y as i32
    } else {
        (y - 0x1_0000_0000) as i32
    }
}

/// The byte form of a signed 32-bit field.
pub open spec fn spec_i32_to_le_bytes(x: i32) -> Seq<u8> {
    spec_u32_to_le_bytes(spec_i32_as_u32(x))
}

/// The two 32-bit readings invert each other.
pub proof fn lemma_i32_u32_round_trip(x: i32)
    ensures
        spec_u32_as_i32(spec_i32_as_u32(x)) == x,
{
}

/// The byte form of a signed 64-bit field.
pub open spec fn spec_i64_to_le_bytes(x: i64) -> Seq<u8> {
    spec_u64_to_le_bytes(spec_i64_as_u64(x))
}

/// The byte a flag is stored as.
pub open spec fn spec_bool_byte(b: bool) -> u8 {
    if b {
        1
    } else {
        0
    }
}

/// The two readings invert each other.
pub proof fn lemma_i64_u64_round_trip(x: i64)
    ensures
        spec_u64_as_i64(spec_i64_as_u64(x)) == x,
{
}

/// Appends the little-endian bytes of `x`.
pub fn write_u64(out: &mut Vec<u8>, x: u64)
    ensures
        final(out)@ == old(out)@ + spec_u64_to_le_bytes(x),
        final(out)@.len() == old(out)@.len() + 8,
{
    proof {
        lemma_auto_spec_u64_to_from_le_bytes();
    }
    let mut b = u64_to_le_bytes(x);
    out.append(&mut b);
}

/// Appends the two's-complement little-endian bytes of `x`.
pub fn write_i64(out: &mut Vec<u8>, x: i64)
    ensures
        final(out)@ == old(out)@ + spec_i64_to_le_bytes(x),
        final(out)@.len() == old(out)@.len() + 8,
{
    let u: u64 = if x >= 0 {
        x as u64
    } else {
        (((x as i128) + 0x1_0000_0000_0000_0000i128) as u64)
    };
    assert(u == spec_i64_as_u64(x));
    write_u64(out, u);
}

/// Appends the little-endian bytes of `x`.
pub fn write_u16(out: &mut Vec<u8>, x: u16)
    ensures
        final(out)@ == old(out)@ + spec_u16_to_le_bytes(x),
        final(out)@.len() == old(out)@.len() + 2,
{
    proof {
        vstd::bytes::lemma_auto_spec_u16_to_from_le_bytes();
    }
    let mut b = u16_to_le_bytes(x);
    out.append(&mut b);
}

/// Appends a single byte.
pub fn write_u8(out: &mut Vec<u8>, x: u8)
    ensures
        final(out)@ == old(out)@ + seq![x],
        final(out)@.len() == old(out)@.len() + 1,
{
    out.push(x);
    assert(final(out)@ =~= old(out)@ + seq![x]);
}

/// Appends the byte form of a flag.
pub fn write_bool(out: &mut Vec<u8>, b: bool)
    ensures
        final(out)@ == old(out)@ + seq![spec_bool_byte(b)],
        final(out)@.len() == old(out)@.len() + 1,
{
    if b {
        write_u8(out, 1);
    } else {
        write_u8(out, 0);
    }
}

/// Appends the 32-byte form of an address.
pub fn write_address(out: &mut Vec<u8>, a: &Address)
    ensures
        final(out)@ == old(out)@ + a.spec_bytes(),
        final(out)@.len() == old(out)@.len() + 32,
{
    proof {
        crate::address::lemma_address_round_trip(*a);
    }
    let mut b = a.to_bytes();
    out.append(&mut b);
}

/// Reads a little-endian 64-bit field at `at`.
pub fn read_u64(s: &[u8], at: usize) -> (x: u64)
    requires
        at + 8 <= s@.len(),
    ensures
        x == spec_u64_from_le_bytes(s@.subrange(at as int, at + 8)),
{
    let n = s.len();
    assert(at + 8 <= n);
    u64_from_le_bytes(vstd::slice::slice_subrange(s, at, at + 8))
}

/// Reads a two's-complement 64-bit field at `at`.
pub fn read_i64(s: &[u8], at: usize) -> (x: i64)
    requires
        at + 8 <= s@.len(),
    ensures
        x == spec_u64_as_i64(spec_u64_from_le_bytes(s@.subrange(at as int, at + 8))),
{
    let u = read_u64(s, at);
    if u < 0x8000_0000_0000_0000 {
        u as i64
    } else {
        ((u as i128) - 0x1_0000_0000_0000_0000i128) as i64
    }
}

/// Reads a little-endian 16-bit field at `at`.
pub fn read_u16(s: &[u8], at: usize) -> (x: u16)
    requires
        at + 2 <= s@.len(),
    ensures
        x == spec_u16_from_le_bytes(s@.subrange(at as int, at + 2)),
{
    let n = s.len();
    assert(at + 2 <= n);
    u16_from_le_bytes(vstd::slice::slice_subrange(s, at, at + 2))
}

/// Appends the two's-complement little-endian bytes of `x`.
pub fn write_i32(out: &mut Vec<u8>, x: i32)
    ensures
        final(out)@ == old(out)@ + spec_i32_to_le_bytes(x),
        final(out)@.len() == old(out)@.len() + 4,
{
    let u: u32 = if x >= 0 {
        x as u32
    } else {
        (((x as i64) + 0x1_0000_0000i64) as u32)
    };
    assert(u == spec_i32_as_u32(x));
    proof {
        vstd::bytes::lemma_auto_spec_u32_to_from_le_bytes();
    }
    let mut b = u32_to_le_bytes(u);
    out.append(&mut b);
}

/// Reads a two's-complement 32-bit field at `at`.
pub fn read_i32(s: &[u8], at: usize) -> (x: i32)
    requires
        at + 4 <= s@.len(),
    ensures
        x == spec_u32_as_i32(spec_u32_from_le_bytes(s@.subrange(at as int, at + 4))),
{
    let n = s.len();
    assert(at + 4 <= n);
    let u = u32_from_le_bytes(vstd::slice::slice_subrange(s, at, at + 4));
    if u < 0x8000_0000 {
        u as i32
    } else {
        ((u as i64) - 0x1_0000_0000i64) as i32
    }
}

/// Compares two byte strings for equality.
pub fn bytes_eq(a: &[u8], b: &[u8]) -> (r: bool)
    ensures
        r <==> a@ == b@,
{
    if a.len() != b.len() {
        return false;
    }
    let n = a.len();
    let mut i: usize = 0;
    while i < n
        invariant
            n == a@.len() == b@.len(),
            i <= n,
            forall|j: int| 0 <= j < i ==> a@[j] == b@[j],
        decreases n - i,
    {
        if *vstd::slice::slice_index_get(a, i) != *vstd::slice::slice_index_get(b, i) {
            return false;
        }
        i = i + 1;
    }
    proof {
        assert(a@ =~= b@);
    }
    true
}

/// Reads the byte at `at`.
pub fn read_u8(s: &[u8], at: usize) -> (x: u8)
    requires
        at < s@.len(),
    ensures
        x == s@[at as int],
{
    *vstd::slice::slice_index_get(s, at)
}

} // verus!
