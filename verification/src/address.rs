//! The 32-byte identity key used for records, signers and assets.
//!
//! The engine only ever compares keys and writes them into record bytes, so a
//! key is held as four 64-bit words; its byte form is the little-endian bytes
//! of the words in order, 32 bytes in all.

use vstd::bytes::{
    lemma_auto_spec_u64_to_from_le_bytes, spec_u64_from_le_bytes, spec_u64_to_le_bytes,
    u64_from_le_bytes, u64_to_le_bytes,
};
use vstd::prelude::*;

verus! {

/// Number of bytes in an address.
pub const ADDRESS_LEN: usize = 32;

/// A 32-byte identity key: a record address, a signer identity, or an asset
/// identifier.
#[derive(Clone, Copy, Debug, PartialEq, Eq, Structural)]
pub struct Address {
    pub w0: u64,
    pub w1: u64,
    pub w2: u64,
    pub w3: u64,
}

impl Address {
    /// The 32-byte form of this address: the little-endian bytes of the four
    /// words in order.
    pub open spec fn spec_bytes(&self) -> Seq<u8> {
        spec_u64_to_le_bytes(self.w0) + spec_u64_to_le_bytes(self.w1)
            + spec_u64_to_le_bytes(self.w2) + spec_u64_to_le_bytes(self.w3)
    }

    /// The address whose 32-byte form is `s`.
    pub open spec fn spec_from_bytes(s: Seq<u8>) -> Address
        recommends
            s.len() == 32,
    {
        Address {
            w0: spec_u64_from_le_bytes(s.subrange(0, 8)),
            w1: spec_u64_from_le_bytes(s.subrange(8, 16)),
            w2: spec_u64_from_le_bytes(s.subrange(16, 24)),
            w3: spec_u64_from_le_bytes(s.subrange(24, 32)),
        }
    }

    /// Builds the 32-byte form of this address.
    pub fn to_bytes(&self) -> (r: Vec<u8>)
        ensures
            r@ == self.spec_bytes(),
            r@.len() == 32,
    {
        proof {
            lemma_auto_spec_u64_to_from_le_bytes();
        }
        let mut r = u64_to_le_bytes(self.w0);
        let mut b1 = u64_to_le_bytes(self.w1);
        let mut b2 = u64_to_le_bytes(self.w2);
        let mut b3 = u64_to_le_bytes(self.w3);
        r.append(&mut b1);
        r.append(&mut b2);
        r.append(&mut b3);
        r
    }

    /// Reads an address back from its 32-byte form, starting at `at`.
    pub fn read_from(s: &[u8], at: usize) -> (r: Address)
        requires
            at + 32 <= s@.len(),
        ensures
            r == Address::spec_from_bytes(s@.subrange(at as int, at + 32)),
    {
        let n = s.len();
        assert(at + 32 <= n);
        let w0 = u64_from_le_bytes(vstd::slice::slice_subrange(s, at, at + 8));
        let w1 = u64_from_le_bytes(vstd::slice::slice_subrange(s, at + 8, at + 16));
        let w2 = u64_from_le_bytes(vstd::slice::slice_subrange(s, at + 16, at + 24));
        let w3 = u64_from_le_bytes(vstd::slice::slice_subrange(s, at + 24, at + 32));
        proof {
            let whole = s@.subrange(at as int, at + 32);
            assert(s@.subrange(at as int, at + 8) =~= whole.subrange(0, 8));
            assert(s@.subrange(at + 8, at + 16) =~= whole.subrange(8, 16));
            assert(s@.subrange(at + 16, at + 24) =~= whole.subrange(16, 24));
            assert(s@.subrange(at + 24, at + 32) =~= whole.subrange(24, 32));
        }
        Address { w0, w1, w2, w3 }
    }
}

/// Decoding inverts encoding: an address read back from its own byte form is
/// the address itself.
pub proof fn lemma_address_round_trip(a: Address)
    ensures
        Address::spec_from_bytes(a.spec_bytes()) == a,
        a.spec_bytes().len() == 32,
{
    lemma_auto_spec_u64_to_from_le_bytes();
    let s = a.spec_bytes();
    assert(s.subrange(0, 8) =~= spec_u64_to_le_bytes(a.w0));
    assert(s.subrange(8, 16) =~= spec_u64_to_le_bytes(a.w1));
    assert(s.subrange(16, 24) =~= spec_u64_to_le_bytes(a.w2));
    assert(s.subrange(24, 32) =~= spec_u64_to_le_bytes(a.w3));
}

} // verus!
