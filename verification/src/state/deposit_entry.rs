//! Bookkeeping for a single deposit for a given mint and lockup schedule.

use crate::codec::{read_u64, read_u8, spec_bool_byte, write_bool, write_u64, write_u8};
use crate::error::{GovError, OpError};
use crate::state::exchange_rate_entry::ExchangeRateEntry;
use crate::state::lockup::{Lockup, LockupKind, MAX_DAYS_LOCKED, SECS_PER_DAY};
use crate::state::registrar::Registrar;
use crate::state::voter::Voter;
use vstd::bytes::{spec_u64_from_le_bytes, spec_u64_to_le_bytes};
use vstd::prelude::*;

verus! {

/// Size in bytes of a deposit entry's record image.
pub const DEPOSIT_ENTRY_LEN: usize = 59;

/// One lockup record within a voter: occupancy, the rate slot it tracks,
/// its running totals, and its vesting schedule.
#[derive(Clone, Copy, Debug, PartialEq, Eq, Structural)]
pub struct DepositEntry {
    /// True if the deposit entry is being used.
    pub is_used: bool,
    /// Index into the owning registrar's rate table.
    pub rate_idx: u8,
    /// Amount deposited, in the asset's native currency.
    pub amount_deposited: u64,
    /// Amount withdrawn from the deposit, in the native currency.
    pub amount_withdrawn: u64,
    /// Running total in the common currency: native amounts scaled by the
    /// exchange rate.
    pub amount_scaled: u64,
    /// Locked state.
    pub lockup: Lockup,
}

impl Default for DepositEntry {
    fn default() -> (e: DepositEntry)
        ensures
            e == DepositEntry::spec_default(),
    {
        DepositEntry {
            is_used: false,
            rate_idx: 0,
            amount_deposited: 0,
            amount_withdrawn: 0,
            amount_scaled: 0,
            lockup: Lockup {
                kind: LockupKind::Cliff,
                start_ts: 0,
                end_ts: 0,
                padding_lo: 0,
                padding_hi: 0,
            },
        }
    }
}

impl DepositEntry {
    /// The all-unused slot every voter starts with.
    pub open spec fn spec_default() -> DepositEntry {
        DepositEntry {
            is_used: false,
            rate_idx: 0,
            amount_deposited: 0,
            amount_withdrawn: 0,
            amount_scaled: 0,
            lockup: Lockup {
                kind: LockupKind::Cliff,
                start_ts: 0,
                end_ts: 0,
                padding_lo: 0,
                padding_hi: 0,
            },
        }
    }

    /// The 59-byte record image: occupancy, rate index, the three running
    /// totals, then the lockup.
    pub open spec fn spec_bytes(&self) -> Seq<u8> {
        seq![spec_bool_byte(self.is_used), self.rate_idx]
            + spec_u64_to_le_bytes(self.amount_deposited)
            + spec_u64_to_le_bytes(self.amount_withdrawn)
            + spec_u64_to_le_bytes(self.amount_scaled) + self.lockup.spec_bytes()
    }

    /// The entry stored in the 59-byte image `s`, if its flag byte and
    /// lockup tag are valid.
    pub open spec fn spec_from_bytes(s: Seq<u8>) -> Option<DepositEntry>
        recommends
            s.len() == 59,
    {
        if s[0] != 0 && s[0] != 1 {
            None
        } else {
            match Lockup::spec_from_bytes(s.subrange(26, 59)) {
                Some(lockup) => Some(
                    DepositEntry {
                        is_used: s[0] == 1,
                        rate_idx: s[1],
                        amount_deposited: spec_u64_from_le_bytes(s.subrange(2, 10)),
                        amount_withdrawn: spec_u64_from_le_bytes(s.subrange(10, 18)),
                        amount_scaled: spec_u64_from_le_bytes(s.subrange(18, 26)),
                        lockup,
                    },
                ),
                None => None,
            }
        }
    }

    /// Appends the 59-byte record image of this entry.
    pub fn write_into(&self, out: &mut Vec<u8>)
        ensures
            final(out)@ == old(out)@ + self.spec_bytes(),
            final(out)@.len() == old(out)@.len() + 59,
    {
        write_bool(out, self.is_used);
        write_u8(out, self.rate_idx);
        write_u64(out, self.amount_deposited);
        write_u64(out, self.amount_withdrawn);
        write_u64(out, self.amount_scaled);
        self.lockup.write_into(out);
        assert(final(out)@ =~= old(out)@ + self.spec_bytes());
    }

    /// Reads an entry from its 59-byte record image starting at `at`.
    pub fn read_from(s: &[u8], at: usize) -> (r: Option<DepositEntry>)
        requires
            at + 59 <= s@.len(),
        ensures
            r == DepositEntry::spec_from_bytes(s@.subrange(at as int, at + 59)),
    {
        let n = s.len();
        assert(at + 59 <= n);
        let ghost whole = s@.subrange(at as int, at + 59);
        let flag = read_u8(s, at);
        assert(flag == whole[0]);
        if flag != 0 && flag != 1 {
            return None;
        }
        let rate_idx = read_u8(s, at + 1);
        let amount_deposited = read_u64(s, at + 2);
        let amount_withdrawn = read_u64(s, at + 10);
        let amount_scaled = read_u64(s, at + 18);
        let lockup_opt = Lockup::read_from(s, at + 26);
        proof {
            assert(rate_idx == whole[1]);
            assert(s@.subrange(at + 2, at + 10) =~= whole.subrange(2, 10));
            assert(s@.subrange(at + 10, at + 18) =~= whole.subrange(10, 18));
            assert(s@.subrange(at + 18, at + 26) =~= whole.subrange(18, 26));
            assert(s@.subrange(at + 26, at + 59) =~= whole.subrange(26, 59));
        }
        match lockup_opt {
            Some(lockup) => Some(
                DepositEntry {
                    is_used: flag == 1,
                    rate_idx,
                    amount_deposited,
                    amount_withdrawn,
                    amount_scaled,
                    lockup,
                },
            ),
            None => None,
        }
    }

    /// Days of the lockup term still ahead of `now`; zero once the term has
    /// ended.
    pub open spec fn spec_days_remaining(&self, now: i64) -> int {
        if self.lockup.end_ts <= now {
            0
        } else {
            (self.lockup.end_ts - now) / (SECS_PER_DAY as int)
        }
    }

    /// The voting weight this deposit carries at time `now`: under daily
    /// vesting the deposited amount scaled by the days remaining out of the
    /// maximum lockup term; under cliff vesting the full amount until the
    /// term ends, then zero.
    pub open spec fn spec_current_weight(&self, now: i64) -> int {
        match self.lockup.kind {
            LockupKind::Daily => self.amount_deposited * self.spec_days_remaining(now) / (
            MAX_DAYS_LOCKED as int),
            LockupKind::Cliff => if now < self.lockup.end_ts {
                self.amount_deposited as int
            } else {
                0
            },
        }
    }

    /// Evaluates the voting weight of this deposit at time `now`, failing
    /// rather than wrapping when the exact value does not fit.
    pub fn current_weight(&self, now: i64) -> (r: Result<u64, OpError>)
        ensures
            self.spec_current_weight(now) <= u64::MAX ==> r == Ok::<u64, OpError>(
                self.spec_current_weight(now) as u64,
            ),
            self.spec_current_weight(now) > u64::MAX ==> r == Err::<u64, OpError>(
                OpError::ArithmeticOverflow,
            ),
    {
        match self.lockup.kind {
            LockupKind::Cliff => {
                if now < self.lockup.end_ts {
                    Ok(self.amount_deposited)
                } else {
                    Ok(0)
                }
            },
            LockupKind::Daily => {
                let diff: i128 = (self.lockup.end_ts as i128) - (now as i128);
                let days_remaining: u128 = if diff <= 0 {
                    0
                } else {
                    (diff as u128) / (SECS_PER_DAY as u128)
                };
                assert(days_remaining == self.spec_days_remaining(now));
                assert(days_remaining < 0x1_0000_0000_0000) by {
                    assert(diff <= 0x1_0000_0000_0000_0000i128);
                };
                assert((self.amount_deposited as int) * (days_remaining as int)
                    <= 0xffff_ffff_ffff_ffff * 0x1_0000_0000_0000) by (nonlinear_arith)
                    requires
                        self.amount_deposited <= 0xffff_ffff_ffff_ffffu64,
                        days_remaining < 0x1_0000_0000_0000u128,
                ;
                let product: u128 = (self.amount_deposited as u128) * days_remaining;
                let weight: u128 = product / (MAX_DAYS_LOCKED as u128);
                if weight > u64::MAX as u128 {
                    Err(OpError::ArithmeticOverflow)
                } else {
                    Ok(weight as u64)
                }
            },
        }
    }
}

impl DepositEntry {
    /// What `update_deposit` leaves in a slot on success: both running
    /// totals grown by the native amount and its scaled value.
    pub open spec fn spec_accumulated(self, amount: u64, scaled: u64) -> DepositEntry {
        DepositEntry {
            amount_deposited: (self.amount_deposited + amount) as u64,
            amount_scaled: (self.amount_scaled + scaled) as u64,
            ..self
        }
    }
}

/// The outcome of recording `amount` against slot `idx` of a deposit array
/// under a registrar's conversion table: the updated array, or the exact
/// error. The slot index must be in bounds, the slot's rate entry must
/// exist and not exceed the registrar's precision, and both running totals
/// and the scaled value must fit.
pub open spec fn spec_update_deposit(
    rate_decimals: u8,
    rates: Seq<ExchangeRateEntry>,
    deposits: Seq<DepositEntry>,
    idx: u8,
    amount: u64,
) -> Result<Seq<DepositEntry>, OpError> {
    if (idx as int) >= deposits.len() {
        Err(OpError::Gov(GovError::InvalidDepositId))
    } else {
        let slot = deposits[idx as int];
        if (slot.rate_idx as int) >= rates.len() {
            Err(OpError::Gov(GovError::ExchangeRateEntryNotFound))
        } else {
            let er = rates[slot.rate_idx as int];
            if rate_decimals < er.decimals {
                Err(OpError::Gov(GovError::InvalidDecimals))
            } else {
                let scaled = amount * er.rate * crate::state::registrar::pow10(
                    (rate_decimals - er.decimals) as nat,
                );
                if scaled > u64::MAX || slot.amount_deposited + amount > u64::MAX
                    || slot.amount_scaled + scaled > u64::MAX {
                    Err(OpError::ArithmeticOverflow)
                } else {
                    Ok(deposits.update(idx as int, slot.spec_accumulated(amount, scaled as u64)))
                }
            }
        }
    }
}

impl DepositEntry {
    /// Records a further `amount` against slot `update_idx` of `voter`: the
    /// slot's native total grows by the amount, and its common-currency
    /// total by the amount scaled through the slot's rate entry. The record
    /// is untouched unless every check and every checked addition passes.
    pub fn update_deposit(
        voter: &mut Voter,
        registrar: &Registrar,
        update_idx: u8,
        amount: u64,
    ) -> (r: Result<(), OpError>)
        ensures
            ({
                let out = spec_update_deposit(
                    registrar.rate_decimals,
                    registrar.rates@,
                    old(voter).deposits@,
                    update_idx,
                    amount,
                );
                match out {
                    Ok(ds) => r == Ok::<(), OpError>(()) && final(voter).deposits@ == ds
                        && Voter::spec_same_but_deposits(*old(voter), *final(voter)),
                    Err(e) => r == Err::<(), OpError>(e) && *final(voter) == *old(voter),
                }
            }),
    {
        if (update_idx as usize) >= voter.deposits.len() {
            return Err(OpError::Gov(GovError::InvalidDepositId));
        }
        let slot = voter.deposits[update_idx as usize];
        if (slot.rate_idx as usize) >= registrar.rates.len() {
            return Err(OpError::Gov(GovError::ExchangeRateEntryNotFound));
        }
        let er = registrar.rates[slot.rate_idx as usize];
        let scaled = match registrar.convert(&er, amount) {
            Ok(scaled) => scaled,
            Err(e) => {
                return Err(e);
            },
        };
        let deposited_sum: u128 = (slot.amount_deposited as u128) + (amount as u128);
        if deposited_sum > u64::MAX as u128 {
            return Err(OpError::ArithmeticOverflow);
        }
        let scaled_sum: u128 = (slot.amount_scaled as u128) + (scaled as u128);
        if scaled_sum > u64::MAX as u128 {
            return Err(OpError::ArithmeticOverflow);
        }
        let updated = DepositEntry {
            amount_deposited: deposited_sum as u64,
            amount_scaled: scaled_sum as u64,
            ..slot
        };
        voter.deposits.set(update_idx as usize, updated);
        Ok(())
    }
}

/// Recording an amount never changes which slots are in use: occupancy is
/// untouched by accumulation.
pub proof fn lemma_update_preserves_occupancy(
    rate_decimals: u8,
    rates: Seq<ExchangeRateEntry>,
    deposits: Seq<DepositEntry>,
    idx: u8,
    amount: u64,
)
    ensures
        spec_update_deposit(rate_decimals, rates, deposits, idx, amount) matches Ok(ds) ==> (
        ds.len() == deposits.len() && forall|j: int|
            0 <= j < ds.len() ==> ds[j].is_used == deposits[j].is_used),
{
}

/// Decoding inverts encoding for deposit entries.
pub proof fn lemma_deposit_entry_round_trip(e: DepositEntry)
    ensures
        DepositEntry::spec_from_bytes(e.spec_bytes()) == Some(e),
        e.spec_bytes().len() == 59,
{
    vstd::bytes::lemma_auto_spec_u64_to_from_le_bytes();
    crate::state::lockup::lemma_lockup_round_trip(e.lockup);
    let s = e.spec_bytes();
    assert(s[0] == spec_bool_byte(e.is_used));
    assert(s[1] == e.rate_idx);
    assert(s.subrange(2, 10) =~= spec_u64_to_le_bytes(e.amount_deposited));
    assert(s.subrange(10, 18) =~= spec_u64_to_le_bytes(e.amount_withdrawn));
    assert(s.subrange(18, 26) =~= spec_u64_to_le_bytes(e.amount_scaled));
    assert(s.subrange(26, 59) =~= e.lockup.spec_bytes());
}

} // verus!
