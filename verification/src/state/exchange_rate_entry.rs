//! One slot of the registrar's exchange-rate table: the conversion
//! parameters for a single accepted asset.

use crate::address::Address;
use crate::codec::{read_u64, read_u8, write_address, write_u64, write_u8};
use crate::error::OpError;
use vstd::bytes::{spec_u64_from_le_bytes, spec_u64_to_le_bytes};
use vstd::prelude::*;

verus! {

/// Size in bytes of an exchange-rate entry's record image.
pub const EXCHANGE_RATE_ENTRY_LEN: usize = 41;

/// Exchange rate for an asset that can be used to mint voting rights.
#[derive(Clone, Copy, Debug, PartialEq, Eq, Structural)]
pub struct ExchangeRateEntry {
    /// Identifier of the accepted asset.
    pub mint: Address,
    /// Exchange rate into the common currency; positive once populated.
    pub rate: u64,
    /// The asset's native decimal precision.
    pub decimals: u8,
}

impl Default for ExchangeRateEntry {
    fn default() -> (e: ExchangeRateEntry)
        ensures
            e == (ExchangeRateEntry {
                mint: Address { w0: 0, w1: 0, w2: 0, w3: 0 },
                rate: 0,
                decimals: 0,
            }),
    {
        ExchangeRateEntry { mint: Address { w0: 0, w1: 0, w2: 0, w3: 0 }, rate: 0, decimals: 0 }
    }
}

impl ExchangeRateEntry {
    /// The 41-byte record image: mint, rate, decimals.
    pub open spec fn spec_bytes(&self) -> Seq<u8> {
        self.mint.spec_bytes() + spec_u64_to_le_bytes(self.rate) + seq![self.decimals]
    }

    /// The entry stored in the 41-byte image `s`.
    pub open spec fn spec_from_bytes(s: Seq<u8>) -> ExchangeRateEntry
        recommends
            s.len() == 41,
    {
        ExchangeRateEntry {
            mint: Address::spec_from_bytes(s.subrange(0, 32)),
            rate: spec_u64_from_le_bytes(s.subrange(32, 40)),
            decimals: s[40],
        }
    }

    /// The seed tuple from which a per-asset credential mint's address is
    /// derived: the registrar's address bytes, then the asset's.
    pub fn get_voting_mint_seeds(registrar: &Address, deposit_mint: &Address) -> (r: Vec<Vec<u8>>)
        ensures
            r@.len() == 2,
            r@[0]@ == registrar.spec_bytes(),
            r@[1]@ == deposit_mint.spec_bytes(),
    {
        let mut r: Vec<Vec<u8>> = Vec::new();
        r.push(registrar.to_bytes());
        r.push(deposit_mint.to_bytes());
        r
    }

    /// Appends the 41-byte record image of this entry.
    pub fn write_into(&self, out: &mut Vec<u8>)
        ensures
            final(out)@ == old(out)@ + self.spec_bytes(),
            final(out)@.len() == old(out)@.len() + 41,
    {
        write_address(out, &self.mint);
        write_u64(out, self.rate);
        write_u8(out, self.decimals);
        assert(final(out)@ =~= old(out)@ + self.spec_bytes());
    }

    /// Reads an entry from its 41-byte record image starting at `at`.
    pub fn read_from(s: &[u8], at: usize) -> (r: ExchangeRateEntry)
        requires
            at + 41 <= s@.len(),
        ensures
            r == ExchangeRateEntry::spec_from_bytes(s@.subrange(at as int, at + 41)),
    {
        let n = s.len();
        assert(at + 41 <= n);
        let ghost whole = s@.subrange(at as int, at + 41);
        let mint = Address::read_from(s, at);
        let rate = read_u64(s, at + 32);
        let decimals = read_u8(s, at + 40);
        proof {
            assert(s@.subrange(at as int, at + 32) =~= whole.subrange(0, 32));
            assert(s@.subrange(at + 32, at + 40) =~= whole.subrange(32, 40));
            assert(decimals == whole[40]);
        }
        ExchangeRateEntry { mint, rate, decimals }
    }
}

impl crate::account_info_util::Acc for ExchangeRateEntry {
    open spec fn spec_max_size(&self) -> Option<usize> {
        Some(EXCHANGE_RATE_ENTRY_LEN)
    }

    fn get_max_size(&self) -> (r: Option<usize>) {
        Some(EXCHANGE_RATE_ENTRY_LEN)
    }

    open spec fn spec_stored_ok(data: Seq<u8>) -> bool {
        data.len() == EXCHANGE_RATE_ENTRY_LEN
    }

    fn try_from_bytes(data: &[u8]) -> (r: Result<ExchangeRateEntry, OpError>) {
        if data.len() != EXCHANGE_RATE_ENTRY_LEN {
            return Err(crate::error::OpError::InvalidAccountData);
        }
        Ok(ExchangeRateEntry::read_from(data, 0))
    }
}

/// Decoding inverts encoding for exchange-rate entries.
pub proof fn lemma_exchange_rate_entry_round_trip(e: ExchangeRateEntry)
    ensures
        ExchangeRateEntry::spec_from_bytes(e.spec_bytes()) == e,
        e.spec_bytes().len() == 41,
{
    vstd::bytes::lemma_auto_spec_u64_to_from_le_bytes();
    crate::address::lemma_address_round_trip(e.mint);
    let s = e.spec_bytes();
    assert(s.subrange(0, 32) =~= e.mint.spec_bytes());
    assert(s.subrange(32, 40) =~= spec_u64_to_le_bytes(e.rate));
    assert(s[40] == e.decimals);
}

} // verus!
