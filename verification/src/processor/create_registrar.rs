//! The create-registrar operation: builds a realm's singleton
//! configuration record and plans its storage at the derived address.

use crate::account_info_util::{create_and_serialize_account_signed, AccountStatus, SystemStep};
use crate::address::Address;
use crate::error::OpError;
use crate::pda::{pda_of, spec_pda_matches};
use crate::state::{ExchangeRateEntry, Registrar, RATE_ENTRY_COUNT, REGISTRAR_LEN};
use vstd::prelude::*;

verus! {

/// Runs create-registrar: the payer must have signed, the target record
/// must not be populated yet, and its address and completion byte must
/// match the realm-seeded derivation. The new record carries the supplied
/// authority, realm binding and precision, with an all-default
/// (unpopulated) rate table; the plan creates the record at its derived
/// address and ends by writing the record image.
pub fn process(
    program_id: &Address,
    payer: &AccountStatus,
    authority: &Address,
    realm: &Address,
    realm_community_mint: &Address,
    registrar_account: &AccountStatus,
    rate_decimals: u8,
    registrar_bump: u8,
    registrar_min_balance: u64,
) -> (r: Result<(Registrar, Vec<SystemStep>), OpError>)
    ensures
        !payer.is_signer ==> r == Err::<(Registrar, Vec<SystemStep>), OpError>(
            OpError::MissingRequiredSignature,
        ),
        payer.is_signer && !registrar_account.data_is_empty ==> r == Err::<
            (Registrar, Vec<SystemStep>),
            OpError,
        >(OpError::AccountAlreadyInitialized),
        ({
            let seeds_view = seq![realm.spec_bytes()];
            let derived = pda_of(seeds_view, program_id.spec_bytes());
            let matched = spec_pda_matches(
                seeds_view,
                program_id.spec_bytes(),
                registrar_account.address,
            );
            let gate = payer.is_signer && registrar_account.data_is_empty;
            &&& gate && !matched ==> r == Err::<(Registrar, Vec<SystemStep>), OpError>(
                OpError::InvalidSeeds,
            )
            &&& gate && matched && derived.unwrap().1 != registrar_bump ==> r == Err::<
                (Registrar, Vec<SystemStep>),
                OpError,
            >(OpError::InvalidSeeds)
            &&& gate && matched && derived.unwrap().1 == registrar_bump ==> (r matches Ok(p) && {
                let reg = p.0;
                let steps = p.1;
                &&& reg.authority == *authority
                &&& reg.realm == *realm
                &&& reg.realm_community_mint == *realm_community_mint
                &&& reg.bump == registrar_bump
                &&& reg.rate_decimals == rate_decimals
                &&& reg.wf()
                &&& forall|j: int|
                    0 <= j < reg.rates@.len() ==> #[trigger] reg.rates@[j]
                        == (ExchangeRateEntry {
                        mint: Address { w0: 0, w1: 0, w2: 0, w3: 0 },
                        rate: 0,
                        decimals: 0,
                    })
                &&& steps@.len() >= 2
                &&& (steps@.last() matches SystemStep::WriteData { account: a, data: d } && a
                    == registrar_account.address && d@ == reg.spec_bytes())
                &&& registrar_account.lamports == 0 ==> steps@.len() == 2 && steps@[0]
                    == (SystemStep::CreateAccount {
                    payer: payer.address,
                    account: registrar_account.address,
                    lamports: registrar_min_balance,
                    size: REGISTRAR_LEN,
                    owner: *program_id,
                })
                &&& registrar_account.lamports > 0 ==> {
                    let top_up = if registrar_min_balance >= 1 {
                        registrar_min_balance as int - registrar_account.lamports
                    } else {
                        1 - registrar_account.lamports
                    };
                    let shortfall = if top_up > 0 {
                        1int
                    } else {
                        0int
                    };
                    &&& steps@.len() == 3 + shortfall
                    &&& top_up > 0 ==> steps@[0] == (SystemStep::Transfer {
                        from: payer.address,
                        to: registrar_account.address,
                        lamports: top_up as u64,
                    })
                    &&& steps@[shortfall] == (SystemStep::Allocate {
                        account: registrar_account.address,
                        size: REGISTRAR_LEN,
                    })
                    &&& steps@[shortfall + 1] == (SystemStep::Assign {
                        account: registrar_account.address,
                        owner: *program_id,
                    })
                }
            })
        }),
{
    if !payer.is_signer {
        return Err(OpError::MissingRequiredSignature);
    }
    if !registrar_account.data_is_empty {
        return Err(OpError::AccountAlreadyInitialized);
    }
    let mut rates: Vec<ExchangeRateEntry> = Vec::new();
    let mut k: usize = 0;
    while k < RATE_ENTRY_COUNT
        invariant
            k <= RATE_ENTRY_COUNT,
            rates@.len() == k,
            forall|j: int|
                0 <= j < k ==> #[trigger] rates@[j] == (ExchangeRateEntry {
                    mint: Address { w0: 0, w1: 0, w2: 0, w3: 0 },
                    rate: 0,
                    decimals: 0,
                }),
        decreases RATE_ENTRY_COUNT - k,
    {
        rates.push(
            ExchangeRateEntry { mint: Address { w0: 0, w1: 0, w2: 0, w3: 0 }, rate: 0, decimals: 0 },
        );
        k = k + 1;
    }
    let new_registrar = Registrar {
        authority: *authority,
        realm: *realm,
        realm_community_mint: *realm_community_mint,
        bump: registrar_bump,
        rates,
        rate_decimals,
    };
    let data = new_registrar.serialize();
    let mut seeds: Vec<Vec<u8>> = Vec::new();
    seeds.push(realm.to_bytes());
    proof {
        assert(seeds@.map_values(|v: Vec<u8>| v@) =~= seq![realm.spec_bytes()]);
    }
    let (steps, _bump) = match create_and_serialize_account_signed(
        registrar_account,
        &data,
        None,
        &payer.address,
        program_id,
        &seeds,
        Some(registrar_bump),
        registrar_min_balance,
    ) {
        Ok(p) => p,
        Err(e) => {
            return Err(e);
        },
    };
    Ok((new_registrar, steps))
}

} // verus!
