//! The vesting schedule attached to a deposit: daily linear decay, or a
//! cliff that keeps full weight until the term ends.

use crate::codec::{
    read_i64, read_u64, read_u8, spec_i64_to_le_bytes, spec_u64_as_i64, write_i64, write_u64,
    write_u8,
};
use vstd::bytes::{spec_u64_from_le_bytes, spec_u64_to_le_bytes};
use vstd::prelude::*;

verus! {

/// Seconds in one day.
pub const SECS_PER_DAY: i64 = 86_400;

/// Maximum number of days one can lock for.
pub const MAX_DAYS_LOCKED: u64 = 1095;

/// Size in bytes of a lockup's record image.
pub const LOCKUP_LEN: usize = 33;

/// How a deposit's voting weight changes over the lockup term.
#[derive(Clone, Copy, Debug, PartialEq, Eq, Structural)]
pub enum LockupKind {
    /// Weight decays linearly with the days remaining.
    Daily,
    /// Full weight until the term ends, then zero.
    Cliff,
}

impl Default for LockupKind {
    fn default() -> (k: LockupKind)
        ensures
            k == LockupKind::Cliff,
    {
        LockupKind::Cliff
    }
}

impl LockupKind {
    /// The byte this kind is stored as, in declaration order.
    pub open spec fn spec_byte(&self) -> u8 {
        match self {
            LockupKind::Daily => 0,
            LockupKind::Cliff => 1,
        }
    }

    /// The kind stored as byte `b`, if `b` names one.
    pub open spec fn spec_from_byte(b: u8) -> Option<LockupKind> {
        if b == 0 {
            Some(LockupKind::Daily)
        } else if b == 1 {
            Some(LockupKind::Cliff)
        } else {
            None
        }
    }
}

/// The absolute time bounds and shape of one deposit's vesting term.
#[derive(Clone, Copy, Debug, PartialEq, Eq, Structural)]
pub struct Lockup {
    pub kind: LockupKind,
    /// Start of the lockup.
    pub start_ts: i64,
    /// End of the lockup.
    pub end_ts: i64,
    /// Reserved space for future upgrades, kept byte-for-byte.
    pub padding_lo: u64,
    pub padding_hi: u64,
}

impl Default for Lockup {
    fn default() -> (l: Lockup)
        ensures
            l == (Lockup {
                kind: LockupKind::Cliff,
                start_ts: 0,
                end_ts: 0,
                padding_lo: 0,
                padding_hi: 0,
            }),
    {
        Lockup { kind: LockupKind::Cliff, start_ts: 0, end_ts: 0, padding_lo: 0, padding_hi: 0 }
    }
}

impl Lockup {
    /// The 33-byte record image: kind tag, both timestamps, reserved bytes.
    pub open spec fn spec_bytes(&self) -> Seq<u8> {
        seq![self.kind.spec_byte()] + spec_i64_to_le_bytes(self.start_ts)
            + spec_i64_to_le_bytes(self.end_ts) + spec_u64_to_le_bytes(self.padding_lo)
            + spec_u64_to_le_bytes(self.padding_hi)
    }

    /// The lockup stored in the 33-byte image `s`, if the kind tag is valid.
    pub open spec fn spec_from_bytes(s: Seq<u8>) -> Option<Lockup>
        recommends
            s.len() == 33,
    {
        match LockupKind::spec_from_byte(s[0]) {
            Some(kind) => Some(
                Lockup {
                    kind,
                    start_ts: spec_u64_as_i64(spec_u64_from_le_bytes(s.subrange(1, 9))),
                    end_ts: spec_u64_as_i64(spec_u64_from_le_bytes(s.subrange(9, 17))),
                    padding_lo: spec_u64_from_le_bytes(s.subrange(17, 25)),
                    padding_hi: spec_u64_from_le_bytes(s.subrange(25, 33)),
                },
            ),
            None => None,
        }
    }

    /// Appends the 33-byte record image of this lockup.
    pub fn write_into(&self, out: &mut Vec<u8>)
        ensures
            final(out)@ == old(out)@ + self.spec_bytes(),
            final(out)@.len() == old(out)@.len() + 33,
    {
        let tag: u8 = match self.kind {
            LockupKind::Daily => 0,
            LockupKind::Cliff => 1,
        };
        write_u8(out, tag);
        write_i64(out, self.start_ts);
        write_i64(out, self.end_ts);
        write_u64(out, self.padding_lo);
        write_u64(out, self.padding_hi);
        assert(final(out)@ =~= old(out)@ + self.spec_bytes());
    }

    /// Reads a lockup from its 33-byte record image starting at `at`.
    pub fn read_from(s: &[u8], at: usize) -> (r: Option<Lockup>)
        requires
            at + 33 <= s@.len(),
        ensures
            r == Lockup::spec_from_bytes(s@.subrange(at as int, at + 33)),
    {
        let n = s.len();
        assert(at + 33 <= n);
        let ghost whole = s@.subrange(at as int, at + 33);
        let tag = read_u8(s, at);
        assert(tag == whole[0]);
        let kind = if tag == 0 {
            LockupKind::Daily
        } else if tag == 1 {
            LockupKind::Cliff
        } else {
            return None;
        };
        let start_ts = read_i64(s, at + 1);
        let end_ts = read_i64(s, at + 9);
        let p0 = read_u64(s, at + 17);
        let p1 = read_u64(s, at + 25);
        proof {
            assert(s@.subrange(at + 1, at + 9) =~= whole.subrange(1, 9));
            assert(s@.subrange(at + 9, at + 17) =~= whole.subrange(9, 17));
            assert(s@.subrange(at + 17, at + 25) =~= whole.subrange(17, 25));
            assert(s@.subrange(at + 25, at + 33) =~= whole.subrange(25, 33));
        }
        Some(Lockup { kind, start_ts, end_ts, padding_lo: p0, padding_hi: p1 })
    }
}

/// Decoding inverts encoding for lockups.
pub proof fn lemma_lockup_round_trip(l: Lockup)
    ensures
        Lockup::spec_from_bytes(l.spec_bytes()) == Some(l),
        l.spec_bytes().len() == 33,
{
    vstd::bytes::lemma_auto_spec_u64_to_from_le_bytes();
    let s = l.spec_bytes();
    assert(s[0] == l.kind.spec_byte());
    assert(s.subrange(1, 9) =~= spec_i64_to_le_bytes(l.start_ts));
    assert(s.subrange(9, 17) =~= spec_i64_to_le_bytes(l.end_ts));
    assert(s.subrange(17, 25) =~= spec_u64_to_le_bytes(l.padding_lo));
    assert(s.subrange(25, 33) =~= spec_u64_to_le_bytes(l.padding_hi));
    crate::codec::lemma_i64_u64_round_trip(l.start_ts);
    crate::codec::lemma_i64_u64_round_trip(l.end_ts);
}

} // verus!
