//! The per-realm configuration record: the authority key, the identifiers
//! the registrar is bound to, and the fixed-capacity exchange-rate table
//! every deposit is normalized through.

use crate::address::Address;
use crate::codec::{read_u8, write_address, write_u8};
use crate::error::{GovError, OpError};
use crate::state::exchange_rate_entry::ExchangeRateEntry;
use vstd::prelude::*;

verus! {

/// Number of slots in the exchange-rate table.
pub const RATE_ENTRY_COUNT: usize = 2;

/// Size in bytes of a registrar's record image.
pub const REGISTRAR_LEN: usize = 98 + 41 * RATE_ENTRY_COUNT;

/// The singleton configuration record of a governed realm.
#[derive(Clone, Debug)]
pub struct Registrar {
    /// Identity key permitted to mutate this record.
    pub authority: Address,
    /// The governed realm this registrar is bound to.
    pub realm: Address,
    /// The realm's community asset identifier.
    pub realm_community_mint: Address,
    /// Completion byte of this record's address derivation.
    pub bump: u8,
    /// Fixed-capacity table of per-asset conversion parameters.
    pub rates: Vec<ExchangeRateEntry>,
    /// The decimal precision all conversions normalize to.
    pub rate_decimals: u8,
}

/// Ten to the `n`-th power.
pub open spec fn pow10(n: nat) -> nat
    decreases n,
{
    if n == 0 {
        1
    } else {
        10 * pow10((n - 1) as nat)
    }
}

/// Ten to any power is positive.
pub proof fn lemma_pow10_pos(n: nat)
    ensures
        pow10(n) >= 1,
    decreases n,
{
    if n > 0 {
        lemma_pow10_pos((n - 1) as nat);
    }
}

/// Ten to the power grows with the exponent.
pub proof fn lemma_pow10_mono(i: nat, j: nat)
    requires
        i <= j,
    ensures
        pow10(i) <= pow10(j),
    decreases j,
{
    if i < j {
        lemma_pow10_mono(i, (j - 1) as nat);
        lemma_pow10_pos((j - 1) as nat);
    }
}

/// Computes ten to the `n`-th power exactly, or reports that it does not
/// fit in 64 bits.
fn pow10_checked(n: u8) -> (r: Option<u64>)
    ensures
        r matches Some(p) ==> p == pow10(n as nat),
        r is None ==> pow10(n as nat) > u64::MAX,
{
    let mut acc: u64 = 1;
    let mut i: u8 = 0;
    while i < n
        invariant
            i <= n,
            acc == pow10(i as nat),
        decreases n - i,
    {
        if acc > u64::MAX / 10 {
            proof {
                lemma_pow10_mono((i + 1) as nat, n as nat);
            }
            return None;
        }
        acc = acc * 10;
        i = i + 1;
    }
    Some(acc)
}

/// The concatenated record images of a rate table, in slot order.
pub open spec fn spec_table_bytes(rs: Seq<ExchangeRateEntry>) -> Seq<u8>
    decreases rs.len(),
{
    if rs.len() == 0 {
        Seq::empty()
    } else {
        spec_table_bytes(rs.drop_last()) + rs.last().spec_bytes()
    }
}

/// A serialized rate table is 41 bytes per slot.
pub proof fn lemma_table_bytes_len(rs: Seq<ExchangeRateEntry>)
    ensures
        spec_table_bytes(rs).len() == 41 * rs.len(),
    decreases rs.len(),
{
    if rs.len() > 0 {
        lemma_table_bytes_len(rs.drop_last());
        crate::state::exchange_rate_entry::lemma_exchange_rate_entry_round_trip(rs.last());
    }
}

/// Each slot's image sits at its own 41-byte window of the table image.
pub proof fn lemma_table_bytes_index(rs: Seq<ExchangeRateEntry>, k: int)
    requires
        0 <= k < rs.len(),
    ensures
        spec_table_bytes(rs).subrange(41 * k, 41 * k + 41) == rs[k].spec_bytes(),
    decreases rs.len(),
{
    lemma_table_bytes_len(rs);
    lemma_table_bytes_len(rs.drop_last());
    crate::state::exchange_rate_entry::lemma_exchange_rate_entry_round_trip(rs.last());
    if k == rs.len() - 1 {
        assert(spec_table_bytes(rs).subrange(41 * k, 41 * k + 41) =~= rs.last().spec_bytes());
    } else {
        lemma_table_bytes_index(rs.drop_last(), k);
        assert(spec_table_bytes(rs).subrange(41 * k, 41 * k + 41) =~= spec_table_bytes(
            rs.drop_last(),
        ).subrange(41 * k, 41 * k + 41));
    }
}

/// The rate table read back from `s`: one entry per 41-byte window.
pub open spec fn spec_table_from_bytes(s: Seq<u8>, n: nat) -> Seq<ExchangeRateEntry> {
    Seq::new(n, |k: int| ExchangeRateEntry::spec_from_bytes(s.subrange(41 * k, 41 * k + 41)))
}

/// Decoding inverts encoding for whole rate tables.
pub proof fn lemma_table_round_trip(rs: Seq<ExchangeRateEntry>)
    ensures
        spec_table_from_bytes(spec_table_bytes(rs), rs.len()) == rs,
{
    lemma_table_bytes_len(rs);
    assert forall|k: int| 0 <= k < rs.len() implies spec_table_from_bytes(
        spec_table_bytes(rs),
        rs.len(),
    )[k] == rs[k] by {
        lemma_table_bytes_index(rs, k);
        crate::state::exchange_rate_entry::lemma_exchange_rate_entry_round_trip(rs[k]);
    }
    assert(spec_table_from_bytes(spec_table_bytes(rs), rs.len()) =~= rs);
}

impl Registrar {
    /// A registrar record is well formed when its table has exactly the
    /// configured number of slots.
    pub open spec fn wf(&self) -> bool {
        self.rates@.len() == RATE_ENTRY_COUNT
    }

    /// The record image: the three keys, the address completion byte, the
    /// rate table, and the common precision.
    pub open spec fn spec_bytes(&self) -> Seq<u8> {
        self.authority.spec_bytes() + self.realm.spec_bytes()
            + self.realm_community_mint.spec_bytes() + seq![self.bump] + spec_table_bytes(
            self.rates@,
        ) + seq![self.rate_decimals]
    }

    /// This registrar is exactly what the record image `s` stores: `s` has
    /// the record's exact size and every field equals its window of `s`.
    pub open spec fn matches_bytes(&self, s: Seq<u8>) -> bool {
        &&& s.len() == REGISTRAR_LEN
        &&& self.authority == Address::spec_from_bytes(s.subrange(0, 32))
        &&& self.realm == Address::spec_from_bytes(s.subrange(32, 64))
        &&& self.realm_community_mint == Address::spec_from_bytes(s.subrange(64, 96))
        &&& self.bump == s[96]
        &&& self.rates@ == spec_table_from_bytes(
            s.subrange(97, 97 + 41 * RATE_ENTRY_COUNT),
            RATE_ENTRY_COUNT as nat,
        )
        &&& self.rate_decimals == s[REGISTRAR_LEN - 1]
    }

    /// Builds the record image of this registrar.
    pub fn serialize(&self) -> (r: Vec<u8>)
        requires
            self.wf(),
        ensures
            r@ == self.spec_bytes(),
            r@.len() == REGISTRAR_LEN,
    {
        let mut out: Vec<u8> = Vec::new();
        write_address(&mut out, &self.authority);
        write_address(&mut out, &self.realm);
        write_address(&mut out, &self.realm_community_mint);
        write_u8(&mut out, self.bump);
        let ghost mid = out@;
        assert(mid + spec_table_bytes(self.rates@.take(0)) =~= mid);
        let mut k: usize = 0;
        while k < self.rates.len()
            invariant
                self.wf(),
                k <= self.rates@.len(),
                out@ == mid + spec_table_bytes(self.rates@.take(k as int)),
            decreases self.rates@.len() - k,
        {
            self.rates[k].write_into(&mut out);
            proof {
                assert(self.rates@.take(k + 1).drop_last() =~= self.rates@.take(k as int));
                assert(spec_table_bytes(self.rates@.take(k + 1)) == spec_table_bytes(
                    self.rates@.take(k as int),
                ) + self.rates@[k as int].spec_bytes());
            }
            k = k + 1;
        }
        assert(self.rates@.take(self.rates@.len() as int) =~= self.rates@);
        write_u8(&mut out, self.rate_decimals);
        proof {
            lemma_table_bytes_len(self.rates@);
            assert(out@ =~= self.spec_bytes());
        }
        out
    }

    /// Reads a registrar back from its record image: succeeds exactly on
    /// images of the record's size, and returns the stored record.
    pub fn try_from_slice(data: &[u8]) -> (r: Result<Registrar, OpError>)
        ensures
            data@.len() == REGISTRAR_LEN ==> (r matches Ok(reg) && reg.matches_bytes(data@)
                && reg.wf()),
            data@.len() != REGISTRAR_LEN ==> r == Err::<Registrar, OpError>(
                OpError::InvalidAccountData,
            ),
    {
        if data.len() != REGISTRAR_LEN {
            return Err(OpError::InvalidAccountData);
        }
        let authority = Address::read_from(data, 0);
        let realm = Address::read_from(data, 32);
        let realm_community_mint = Address::read_from(data, 64);
        let bump = read_u8(data, 96);
        let mut rates: Vec<ExchangeRateEntry> = Vec::new();
        let ghost table = data@.subrange(97, 97 + 41 * RATE_ENTRY_COUNT);
        let mut k: usize = 0;
        while k < RATE_ENTRY_COUNT
            invariant
                k <= RATE_ENTRY_COUNT,
                data@.len() == REGISTRAR_LEN,
                table == data@.subrange(97, 97 + 41 * RATE_ENTRY_COUNT),
                rates@.len() == k,
                forall|j: int|
                    0 <= j < k ==> rates@[j] == ExchangeRateEntry::spec_from_bytes(
                        table.subrange(41 * j, 41 * j + 41),
                    ),
            decreases RATE_ENTRY_COUNT - k,
        {
            let e = ExchangeRateEntry::read_from(data, 97 + 41 * k);
            proof {
                assert(data@.subrange(97 + 41 * k, 97 + 41 * k + 41) =~= table.subrange(
                    41 * k,
                    41 * k + 41,
                ));
            }
            rates.push(e);
            k = k + 1;
        }
        let rate_decimals = read_u8(data, REGISTRAR_LEN - 1);
        proof {
            assert(rates@ =~= spec_table_from_bytes(table, RATE_ENTRY_COUNT as nat));
        }
        Ok(Registrar { authority, realm, realm_community_mint, bump, rates, rate_decimals })
    }

    /// The exact scaled value of `amount` under entry parameters: the native
    /// amount times the rate, brought up to the registrar's precision.
    pub open spec fn spec_scaled(&self, er: ExchangeRateEntry, amount: u64) -> int {
        amount * er.rate * pow10((self.rate_decimals - er.decimals) as nat)
    }

    /// Converts a native-currency amount into the common currency: the
    /// amount times the entry's rate times ten to the precision difference.
    /// Exact integer arithmetic; fails rather than wraps when the product
    /// does not fit, and rejects entries more precise than the registrar.
    pub fn convert(&self, er: &ExchangeRateEntry, amount: u64) -> (r: Result<u64, OpError>)
        ensures
            self.rate_decimals < er.decimals ==> r == Err::<u64, OpError>(
                OpError::Gov(GovError::InvalidDecimals),
            ),
            self.rate_decimals >= er.decimals && self.spec_scaled(*er, amount) <= u64::MAX ==> r
                == Ok::<u64, OpError>(self.spec_scaled(*er, amount) as u64),
            self.rate_decimals >= er.decimals && self.spec_scaled(*er, amount) > u64::MAX ==> r
                == Err::<u64, OpError>(OpError::ArithmeticOverflow),
    {
        if self.rate_decimals < er.decimals {
            return Err(OpError::Gov(GovError::InvalidDecimals));
        }
        let diff: u8 = self.rate_decimals - er.decimals;
        let ghost p10 = pow10(diff as nat);
        proof {
            lemma_pow10_pos(diff as nat);
        }
        assert((amount as int) * (er.rate as int) <= 0xffff_ffff_ffff_ffff
            * 0xffff_ffff_ffff_ffff) by (nonlinear_arith)
            requires
                amount <= 0xffff_ffff_ffff_ffffu64,
                er.rate <= 0xffff_ffff_ffff_ffffu64,
        ;
        let m1: u128 = (amount as u128) * (er.rate as u128);
        if m1 == 0 {
            assert(self.spec_scaled(*er, amount) == 0) by (nonlinear_arith)
                requires
                    (amount as int) * (er.rate as int) == 0,
                    self.spec_scaled(*er, amount) == (amount as int) * (er.rate as int) * p10,
            ;
            return Ok(0);
        }
        let p = match pow10_checked(diff) {
            Some(p) => p,
            None => {
                assert(self.spec_scaled(*er, amount) > u64::MAX) by (nonlinear_arith)
                    requires
                        (amount as int) * (er.rate as int) >= 1,
                        p10 > u64::MAX,
                        self.spec_scaled(*er, amount) == (amount as int) * (er.rate as int) * p10,
                ;
                return Err(OpError::ArithmeticOverflow);
            },
        };
        if m1 > u64::MAX as u128 {
            assert(self.spec_scaled(*er, amount) > u64::MAX) by (nonlinear_arith)
                requires
                    (amount as int) * (er.rate as int) > u64::MAX,
                    p10 >= 1,
                    self.spec_scaled(*er, amount) == (amount as int) * (er.rate as int) * p10,
            ;
            return Err(OpError::ArithmeticOverflow);
        }
        assert((m1 as int) * (p as int) <= 0xffff_ffff_ffff_ffff * 0xffff_ffff_ffff_ffff)
            by (nonlinear_arith)
            requires
                m1 <= 0xffff_ffff_ffff_ffffu128,
                p <= 0xffff_ffff_ffff_ffffu64,
        ;
        let m2: u128 = m1 * (p as u128);
        if m2 > u64::MAX as u128 {
            Err(OpError::ArithmeticOverflow)
        } else {
            Ok(m2 as u64)
        }
    }

    /// Validates a registrar record loaded from storage against the caller's
    /// identity: the record must parse, and the caller must be its stored
    /// authority.
    pub fn check_and_get_registrar(data: &[u8], authority: &Address) -> (r: Result<
        Registrar,
        OpError,
    >)
        ensures
            data@.len() != REGISTRAR_LEN ==> r == Err::<Registrar, OpError>(
                OpError::InvalidAccountData,
            ),
            data@.len() == REGISTRAR_LEN && Address::spec_from_bytes(data@.subrange(0, 32))
                == *authority ==> (r matches Ok(reg) && reg.matches_bytes(data@) && reg.wf()),
            data@.len() == REGISTRAR_LEN && Address::spec_from_bytes(data@.subrange(0, 32))
                != *authority ==> r == Err::<Registrar, OpError>(
                OpError::Gov(GovError::AuthorityMismatch),
            ),
    {
        let registrar = match Registrar::try_from_slice(data) {
            Ok(reg) => reg,
            Err(e) => {
                return Err(e);
            },
        };
        if registrar.authority != *authority {
            return Err(OpError::Gov(GovError::AuthorityMismatch));
        }
        Ok(registrar)
    }
}

/// `i` is the first slot of `rates` whose mint is `mint`.
pub open spec fn spec_first_rate_match(rates: Seq<ExchangeRateEntry>, mint: Address, i: int) -> bool {
    &&& 0 <= i < rates.len()
    &&& rates[i].mint == mint
    &&& forall|j: int| 0 <= j < i ==> rates[j].mint != mint
}

impl Registrar {
    /// Finds the slot of the rate table configured for `mint`: the first
    /// entry with that mint, or nothing when no entry has it.
    pub fn find_rate_idx(&self, mint: &Address) -> (r: Option<usize>)
        ensures
            r matches Some(i) ==> spec_first_rate_match(self.rates@, *mint, i as int),
            r is None ==> forall|j: int| 0 <= j < self.rates@.len() ==> self.rates@[j].mint
                != *mint,
    {
        let n = self.rates.len();
        let mut i: usize = 0;
        while i < n
            invariant
                n == self.rates@.len(),
                i <= n,
                forall|j: int| 0 <= j < i ==> self.rates@[j].mint != *mint,
            decreases n - i,
        {
            if self.rates[i].mint == *mint {
                return Some(i);
            }
            i = i + 1;
        }
        None
    }
}

impl crate::account_info_util::Acc for Registrar {
    open spec fn spec_max_size(&self) -> Option<usize> {
        None
    }

    fn get_max_size(&self) -> (r: Option<usize>) {
        None
    }

    open spec fn spec_stored_ok(data: Seq<u8>) -> bool {
        data.len() == REGISTRAR_LEN
    }

    fn try_from_bytes(data: &[u8]) -> (r: Result<Registrar, OpError>) {
        Registrar::try_from_slice(data)
    }
}

/// Decoding inverts encoding for registrar records: a well-formed registrar
/// is exactly what its own record image stores.
pub proof fn lemma_registrar_round_trip(reg: Registrar)
    requires
        reg.wf(),
    ensures
        reg.matches_bytes(reg.spec_bytes()),
        reg.spec_bytes().len() == REGISTRAR_LEN,
{
    crate::address::lemma_address_round_trip(reg.authority);
    crate::address::lemma_address_round_trip(reg.realm);
    crate::address::lemma_address_round_trip(reg.realm_community_mint);
    lemma_table_bytes_len(reg.rates@);
    lemma_table_round_trip(reg.rates@);
    let s = reg.spec_bytes();
    assert(s.subrange(0, 32) =~= reg.authority.spec_bytes());
    assert(s.subrange(32, 64) =~= reg.realm.spec_bytes());
    assert(s.subrange(64, 96) =~= reg.realm_community_mint.spec_bytes());
    assert(s[96] == reg.bump);
    assert(s.subrange(97, 97 + 41 * RATE_ENTRY_COUNT) =~= spec_table_bytes(reg.rates@));
    assert(s[REGISTRAR_LEN - 1] == reg.rate_decimals);
}

} // verus!
