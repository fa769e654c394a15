//! The create-deposit operation: allocates the first free deposit slot,
//! stamps the vesting schedule, records the first amount through
//! update-deposit's accounting, and plans the custody work.

use crate::account_info_util::AccountStatus;
use crate::address::Address;
use crate::error::{GovError, OpError};
use crate::pda::{spec_pda_matches, verify_pda};
use crate::spl_token_util::{mint_token_signed, transfer_spl_token, TokenAccountState, TokenStep};
use crate::state::{
    spec_deposits_from_bytes, spec_deposits_ok, spec_first_free_slot, spec_first_rate_match,
    spec_table_from_bytes, spec_update_deposit, DepositEntry, ExchangeRateEntry, Lockup,
    LockupKind, Registrar, Voter, DEPOSIT_ENTRY_COUNT, RATE_ENTRY_COUNT, REGISTRAR_LEN,
    SECS_PER_DAY, VOTER_LEN,
};
use vstd::prelude::*;

verus! {

/// What create-deposit leaves for the host: the voter with its new slot,
/// the record image, which slot and rate entry were used, and the custody
/// steps in order.
pub struct CreateDepositEffects {
    /// The voter with the allocated slot populated and accumulated.
    pub voter: Voter,
    /// The voter's new record image, to overwrite the record.
    pub voter_data: Vec<u8>,
    /// The allocated deposit slot.
    pub slot_idx: u8,
    /// The rate-table slot configured for the deposited asset.
    pub rate_idx: u8,
    /// Custody steps in order: the credential account's creation where it
    /// did not exist yet, the escrow transfer, then the credential mint
    /// bracket under the registrar's derived authority.
    pub token_steps: Vec<TokenStep>,
    /// The registrar's stored realm: the seed its signature derives from.
    pub realm: Address,
    /// The registrar's stored address completion byte.
    pub registrar_bump: u8,
}

/// The first failing token-account check, in the order the operation makes
/// them: the depositor's holding account must hold the deposited asset,
/// the escrow vault must belong to the registrar and hold the same asset,
/// and an existing credential account must belong to the depositor and
/// hold the credential mint.
pub open spec fn spec_token_gate(
    deposit_token: TokenAccountState,
    exchange_vault: TokenAccountState,
    voting_token: Option<TokenAccountState>,
    deposit_mint: Address,
    registrar_address: Address,
    authority_address: Address,
    voting_mint_address: Address,
) -> Option<OpError> {
    if deposit_token.mint != deposit_mint {
        Some(OpError::MintMismatch)
    } else if exchange_vault.owner != registrar_address {
        Some(OpError::OwnerMismatch)
    } else if exchange_vault.mint != deposit_mint {
        Some(OpError::MintMismatch)
    } else {
        match voting_token {
            None => None,
            Some(vt) => if vt.owner != authority_address {
                Some(OpError::OwnerMismatch)
            } else if vt.mint != voting_mint_address {
                Some(OpError::MintMismatch)
            } else {
                None
            },
        }
    }
}

/// The slot contents create-deposit stamps before recording the amount:
/// occupied, tracking the resolved rate entry, nothing withdrawn, and the
/// vesting term running from `now` for `days` days.
pub open spec fn spec_stamped_slot(
    old_slot: DepositEntry,
    rate_idx: u8,
    kind: LockupKind,
    now: i64,
    end_ts: i64,
) -> DepositEntry {
    DepositEntry {
        is_used: true,
        rate_idx,
        amount_deposited: old_slot.amount_deposited,
        amount_withdrawn: 0,
        amount_scaled: old_slot.amount_scaled,
        lockup: Lockup { kind, start_ts: now, end_ts, padding_lo: 0, padding_hi: 0 },
    }
}

/// Allocating a slot consumes capacity monotonically: stamping the first
/// free slot occupies exactly that slot, and every slot already in use
/// stays in use — no operation frees one.
pub proof fn lemma_allocation_monotone(
    deposits: Seq<DepositEntry>,
    i: int,
    rate_idx: u8,
    kind: LockupKind,
    now: i64,
    end_ts: i64,
)
    requires
        spec_first_free_slot(deposits, i),
    ensures
        ({
            let ds = deposits.update(i, spec_stamped_slot(deposits[i], rate_idx, kind, now, end_ts));
            forall|j: int|
                0 <= j < ds.len() ==> (#[trigger] ds[j].is_used <==> deposits[j].is_used || j
                    == i)
        }),
{
}

/// Runs create-deposit: under the checks of the mutation gate and the
/// token gate, allocates the first free slot, stamps it with the vesting
/// term, and records `amount` against it. The custody plan transfers the
/// amount into escrow and mints the same amount of credential units inside
/// a thaw/freeze bracket; a missing credential account is created first.
pub fn process(
    program_id: &Address,
    authority: &AccountStatus,
    registrar_account: &AccountStatus,
    registrar_data: &[u8],
    voter_data: &[u8],
    deposit_mint: &Address,
    voting_mint_account: &Address,
    deposit_token_account: &Address,
    deposit_token: &TokenAccountState,
    exchange_vault_account: &Address,
    exchange_vault: &TokenAccountState,
    voting_token_account: &Address,
    voting_token: &Option<TokenAccountState>,
    kind: LockupKind,
    amount: u64,
    days: i32,
    now: i64,
) -> (r: Result<CreateDepositEffects, OpError>)
    ensures
        ({
            let sig = authority.is_signer;
            let reg_ok = registrar_data@.len() == REGISTRAR_LEN;
            let voter_ok = voter_data@.len() == VOTER_LEN && spec_deposits_ok(
                voter_data@.subrange(66, 66 + 59 * DEPOSIT_ENTRY_COUNT),
                DEPOSIT_ENTRY_COUNT as nat,
            );
            let v_authority = Address::spec_from_bytes(voter_data@.subrange(0, 32));
            let v_registrar = Address::spec_from_bytes(voter_data@.subrange(32, 64));
            let stored_deposits = spec_deposits_from_bytes(
                voter_data@.subrange(66, 66 + 59 * DEPOSIT_ENTRY_COUNT),
                DEPOSIT_ENTRY_COUNT as nat,
            );
            let stored_rates = spec_table_from_bytes(
                registrar_data@.subrange(97, 97 + 41 * RATE_ENTRY_COUNT),
                RATE_ENTRY_COUNT as nat,
            );
            let stored_decimals = registrar_data@[REGISTRAR_LEN - 1];
            let pda_ok = spec_pda_matches(
                seq![registrar_account.address.spec_bytes(), deposit_mint.spec_bytes()],
                program_id.spec_bytes(),
                *voting_mint_account,
            );
            let gate = spec_token_gate(
                *deposit_token,
                *exchange_vault,
                *voting_token,
                *deposit_mint,
                registrar_account.address,
                authority.address,
                *voting_mint_account,
            );
            let g5 = sig && reg_ok && voter_ok && v_registrar == registrar_account.address
                && v_authority == authority.address;
            let g10 = g5 && pda_ok && gate is None;
            let rate_found = exists|j: int|
                0 <= j < stored_rates.len() && (#[trigger] stored_rates[j]).mint == deposit_mint;
            let slot_free = exists|j: int|
                0 <= j < stored_deposits.len() && !(#[trigger] stored_deposits[j]).is_used;
            let end = now + days * (SECS_PER_DAY as int);
            let end_fits = i64::MIN <= end <= i64::MAX;
            &&& !sig ==> r == Err::<CreateDepositEffects, OpError>(
                OpError::MissingRequiredSignature,
            )
            &&& sig && !reg_ok ==> r == Err::<CreateDepositEffects, OpError>(
                OpError::InvalidAccountData,
            )
            &&& sig && reg_ok && !voter_ok ==> r == Err::<CreateDepositEffects, OpError>(
                OpError::InvalidAccountData,
            )
            &&& sig && reg_ok && voter_ok && v_registrar != registrar_account.address ==> r
                == Err::<CreateDepositEffects, OpError>(OpError::Gov(GovError::RegistrarMismatch))
            &&& sig && reg_ok && voter_ok && v_registrar == registrar_account.address
                && v_authority != authority.address ==> r == Err::<CreateDepositEffects, OpError>(
                OpError::Gov(GovError::AuthorityMismatch),
            )
            &&& g5 && !pda_ok ==> r == Err::<CreateDepositEffects, OpError>(OpError::InvalidSeeds)
            &&& g5 && pda_ok ==> match gate {
                Some(e) => r == Err::<CreateDepositEffects, OpError>(e),
                None => true,
            }
            &&& g10 && !rate_found ==> r == Err::<CreateDepositEffects, OpError>(
                OpError::Gov(GovError::ExchangeRateEntryNotFound),
            )
            &&& g10 && rate_found && !slot_free ==> r == Err::<CreateDepositEffects, OpError>(
                OpError::Gov(GovError::DepositEntryFull),
            )
            &&& g10 && rate_found && slot_free && !end_fits ==> r == Err::<
                CreateDepositEffects,
                OpError,
            >(OpError::ArithmeticOverflow)
            &&& g10 && rate_found && slot_free && end_fits ==> {
                let outcome = spec_update_deposit(
                    stored_decimals,
                    stored_rates,
                    stored_deposits.update(
                        choose|i: int| spec_first_free_slot(stored_deposits, i),
                        spec_stamped_slot(
                            stored_deposits[choose|i: int|
                                spec_first_free_slot(stored_deposits, i)],
                            (choose|j: int|
                                spec_first_rate_match(stored_rates, *deposit_mint, j)) as u8,
                            kind,
                            now,
                            end as i64,
                        ),
                    ),
                    (choose|i: int| spec_first_free_slot(stored_deposits, i)) as u8,
                    amount,
                );
                match outcome {
                    Result::<Seq<DepositEntry>, OpError>::Err(e) => r == Err::<
                        CreateDepositEffects,
                        OpError,
                    >(e),
                    Result::<Seq<DepositEntry>, OpError>::Ok(ds) => (r matches Ok(eff) && {
                        &&& spec_first_free_slot(stored_deposits, eff.slot_idx as int)
                        &&& spec_first_rate_match(stored_rates, *deposit_mint, eff.rate_idx as int)
                        &&& eff.voter.authority == v_authority
                        &&& eff.voter.registrar == v_registrar
                        &&& eff.voter.voter_bump == voter_data@[64]
                        &&& eff.voter.voter_weight_record_bump == voter_data@[65]
                        &&& eff.voter.deposits@ == ds
                        &&& eff.voter.wf()
                        &&& eff.voter_data@ == eff.voter.spec_bytes()
                        &&& eff.realm == Address::spec_from_bytes(
                            registrar_data@.subrange(32, 64),
                        )
                        &&& eff.registrar_bump == registrar_data@[96]
                        &&& ({
                            let bracket_frozen = match voting_token {
                                Some(vt) => vt.is_frozen,
                                None => false,
                            };
                            let tail: Seq<TokenStep> = seq![
                                TokenStep::Transfer {
                                    source: *deposit_token_account,
                                    destination: *exchange_vault_account,
                                    authority: authority.address,
                                    amount,
                                },
                            ] + (if bracket_frozen {
                                seq![
                                    TokenStep::Thaw {
                                        account: *voting_token_account,
                                        mint: *voting_mint_account,
                                        authority: registrar_account.address,
                                    },
                                ]
                            } else {
                                Seq::<TokenStep>::empty()
                            }) + seq![
                                TokenStep::MintTo {
                                    mint: *voting_mint_account,
                                    destination: *voting_token_account,
                                    authority: registrar_account.address,
                                    amount,
                                },
                                TokenStep::Freeze {
                                    account: *voting_token_account,
                                    mint: *voting_mint_account,
                                    authority: registrar_account.address,
                                },
                            ];
                            if voting_token is None {
                                eff.token_steps@ =~= seq![
                                    TokenStep::CreateAssociatedTokenAccount {
                                        payer: authority.address,
                                        owner: authority.address,
                                        mint: *voting_mint_account,
                                    },
                                ] + tail
                            } else {
                                eff.token_steps@ =~= tail
                            }
                        })
                    }),
                }
            }
        }),
{
    if !authority.is_signer {
        return Err(OpError::MissingRequiredSignature);
    }
    let registrar = match Registrar::try_from_slice(registrar_data) {
        Ok(reg) => reg,
        Err(e) => {
            return Err(e);
        },
    };
    let mut voter = match Voter::try_from_slice(voter_data) {
        Ok(v) => v,
        Err(e) => {
            return Err(e);
        },
    };
    match voter.assert_voter(&authority.address, &registrar_account.address) {
        Ok(()) => (),
        Err(e) => {
            return Err(e);
        },
    };
    let voting_mint_seeds = ExchangeRateEntry::get_voting_mint_seeds(
        &registrar_account.address,
        deposit_mint,
    );
    proof {
        assert(voting_mint_seeds@.map_values(|v: Vec<u8>| v@) =~= seq![
            registrar_account.address.spec_bytes(),
            deposit_mint.spec_bytes(),
        ]);
    }
    match verify_pda(&voting_mint_seeds, program_id, voting_mint_account) {
        Ok(()) => (),
        Err(e) => {
            return Err(e);
        },
    };
    if deposit_token.mint != *deposit_mint {
        return Err(OpError::MintMismatch);
    }
    if exchange_vault.owner != registrar_account.address {
        return Err(OpError::OwnerMismatch);
    }
    if exchange_vault.mint != *deposit_mint {
        return Err(OpError::MintMismatch);
    }
    let mut token_steps: Vec<TokenStep> = Vec::new();
    let voting_token_frozen: bool = match voting_token {
        None => {
            token_steps.push(
                TokenStep::CreateAssociatedTokenAccount {
                    payer: authority.address,
                    owner: authority.address,
                    mint: *voting_mint_account,
                },
            );
            false
        },
        Some(vt) => {
            if vt.owner != authority.address {
                return Err(OpError::OwnerMismatch);
            }
            if vt.mint != *voting_mint_account {
                return Err(OpError::MintMismatch);
            }
            vt.is_frozen
        },
    };
    let er_idx: usize = match registrar.find_rate_idx(deposit_mint) {
        Some(i) => i,
        None => {
            return Err(OpError::Gov(GovError::ExchangeRateEntryNotFound));
        },
    };
    let free_idx: usize = match voter.find_free_deposit_idx() {
        Some(i) => i,
        None => {
            return Err(OpError::Gov(GovError::DepositEntryFull));
        },
    };
    let term_secs: i64 = (days as i64) * SECS_PER_DAY;
    let end_wide: i128 = (now as i128) + (term_secs as i128);
    if end_wide < i64::MIN as i128 || end_wide > i64::MAX as i128 {
        return Err(OpError::ArithmeticOverflow);
    }
    let end_ts: i64 = end_wide as i64;
    let old_slot = voter.deposits[free_idx];
    let stamped = DepositEntry {
        is_used: true,
        rate_idx: er_idx as u8,
        amount_deposited: old_slot.amount_deposited,
        amount_withdrawn: 0,
        amount_scaled: old_slot.amount_scaled,
        lockup: Lockup { kind, start_ts: now, end_ts, padding_lo: 0, padding_hi: 0 },
    };
    voter.deposits.set(free_idx, stamped);
    proof {
        let ghost stored_deposits = spec_deposits_from_bytes(
            voter_data@.subrange(66, 66 + 59 * DEPOSIT_ENTRY_COUNT),
            DEPOSIT_ENTRY_COUNT as nat,
        );
        assert(free_idx as int == choose|i: int| spec_first_free_slot(stored_deposits, i)) by {
            let i0 = choose|i: int| spec_first_free_slot(stored_deposits, i);
            assert(spec_first_free_slot(stored_deposits, free_idx as int));
        };
        let ghost stored_rates = spec_table_from_bytes(
            registrar_data@.subrange(97, 97 + 41 * RATE_ENTRY_COUNT),
            RATE_ENTRY_COUNT as nat,
        );
        assert(er_idx as int == choose|j: int|
            spec_first_rate_match(stored_rates, *deposit_mint, j)) by {
            let j0 = choose|j: int| spec_first_rate_match(stored_rates, *deposit_mint, j);
            assert(spec_first_rate_match(stored_rates, *deposit_mint, er_idx as int));
        };
    }
    match DepositEntry::update_deposit(&mut voter, &registrar, free_idx as u8, amount) {
        Ok(()) => (),
        Err(e) => {
            return Err(e);
        },
    };
    let voter_bytes = voter.serialize();
    token_steps.push(
        transfer_spl_token(
            deposit_token_account,
            exchange_vault_account,
            &authority.address,
            amount,
        ),
    );
    let voting_token_state = TokenAccountState {
        mint: *voting_mint_account,
        owner: authority.address,
        amount: 0,
        is_frozen: voting_token_frozen,
    };
    let mut mint_steps = mint_token_signed(
        &voting_token_state,
        voting_token_account,
        voting_mint_account,
        &registrar_account.address,
        amount,
    );
    token_steps.append(&mut mint_steps);
    Ok(
        CreateDepositEffects {
            voter,
            voter_data: voter_bytes,
            slot_idx: free_idx as u8,
            rate_idx: er_idx as u8,
            token_steps,
            realm: registrar.realm,
            registrar_bump: registrar.bump,
        },
    )
}

} // verus!
