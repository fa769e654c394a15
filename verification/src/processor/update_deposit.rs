//! The update-deposit operation: records a further amount against an
//! existing deposit slot, and plans the matching custody work — the
//! native-asset transfer into escrow and the credential mint bracket.

use crate::account_info_util::AccountStatus;
use crate::address::Address;
use crate::error::{GovError, OpError};
use crate::spl_token_util::{mint_token_signed, transfer_spl_token, TokenAccountState, TokenStep};
use crate::state::{
    spec_deposits_from_bytes, spec_deposits_ok, spec_table_from_bytes, spec_update_deposit,
    DepositEntry, Registrar, Voter, DEPOSIT_ENTRY_COUNT, RATE_ENTRY_COUNT, REGISTRAR_LEN,
    VOTER_LEN,
};
use vstd::prelude::*;

verus! {

/// What update-deposit leaves for the host: the updated voter record and
/// its image, the escrow transfer, and the credential mint bracket signed
/// with the registrar's realm seed and completion byte.
pub struct UpdateDepositEffects {
    /// The voter with the slot's totals grown.
    pub voter: Voter,
    /// The voter's new record image, to overwrite the record.
    pub voter_data: Vec<u8>,
    /// The native-asset transfer from the depositor's holding account into
    /// the escrow vault, under the depositor's own signature.
    pub transfer_step: TokenStep,
    /// The thaw/mint/freeze bracket on the depositor's credential account,
    /// signed by the registrar's derived authority.
    pub mint_steps: Vec<TokenStep>,
    /// The registrar's stored realm: the seed its signature derives from.
    pub realm: Address,
    /// The registrar's stored address completion byte.
    pub registrar_bump: u8,
}

/// Runs update-deposit: the depositor's authority must have signed and
/// match the voter's stored authority, the voter must belong to the
/// supplied registrar, the slot index must be in bounds, and the slot's
/// rate entry must convert the amount without overflow. On success the
/// slot's native total grows by the amount and its common-currency total
/// by the scaled value, `amount` is transferred into escrow, and `amount`
/// credential units are minted inside a thaw/freeze bracket.
pub fn process(
    authority: &AccountStatus,
    registrar_account: &AccountStatus,
    registrar_data: &[u8],
    voter_data: &[u8],
    deposit_token_account: &Address,
    exchange_vault_account: &Address,
    voting_token_account: &Address,
    voting_token: &TokenAccountState,
    voting_mint: &Address,
    update_idx: u8,
    amount: u64,
) -> (r: Result<UpdateDepositEffects, OpError>)
    ensures
        ({
            let sig = authority.is_signer;
            let reg_ok = registrar_data@.len() == REGISTRAR_LEN;
            let voter_ok = voter_data@.len() == VOTER_LEN && spec_deposits_ok(
                voter_data@.subrange(66, 66 + 59 * DEPOSIT_ENTRY_COUNT),
                DEPOSIT_ENTRY_COUNT as nat,
            );
            let v_authority = Address::spec_from_bytes(voter_data@.subrange(0, 32));
            let v_registrar = Address::spec_from_bytes(voter_data@.subrange(32, 64));
            let stored_deposits = spec_deposits_from_bytes(
                voter_data@.subrange(66, 66 + 59 * DEPOSIT_ENTRY_COUNT),
                DEPOSIT_ENTRY_COUNT as nat,
            );
            let stored_rates = spec_table_from_bytes(
                registrar_data@.subrange(97, 97 + 41 * RATE_ENTRY_COUNT),
                RATE_ENTRY_COUNT as nat,
            );
            let stored_decimals = registrar_data@[REGISTRAR_LEN - 1];
            let outcome = spec_update_deposit(
                stored_decimals,
                stored_rates,
                stored_deposits,
                update_idx,
                amount,
            );
            &&& !sig ==> r == Err::<UpdateDepositEffects, OpError>(
                OpError::MissingRequiredSignature,
            )
            &&& sig && !reg_ok ==> r == Err::<UpdateDepositEffects, OpError>(
                OpError::InvalidAccountData,
            )
            &&& sig && reg_ok && !voter_ok ==> r == Err::<UpdateDepositEffects, OpError>(
                OpError::InvalidAccountData,
            )
            &&& sig && reg_ok && voter_ok && v_registrar != registrar_account.address ==> r
                == Err::<UpdateDepositEffects, OpError>(OpError::Gov(GovError::RegistrarMismatch))
            &&& sig && reg_ok && voter_ok && v_registrar == registrar_account.address
                && v_authority != authority.address ==> r == Err::<UpdateDepositEffects, OpError>(
                OpError::Gov(GovError::AuthorityMismatch),
            )
            &&& sig && reg_ok && voter_ok && v_registrar == registrar_account.address
                && v_authority == authority.address ==> match outcome {
                Result::<Seq<DepositEntry>, OpError>::Err(e) => r == Err::<
                    UpdateDepositEffects,
                    OpError,
                >(e),
                Result::<Seq<DepositEntry>, OpError>::Ok(ds) => (r matches Ok(eff) && {
                    &&& eff.voter.authority == v_authority
                    &&& eff.voter.registrar == v_registrar
                    &&& eff.voter.voter_bump == voter_data@[64]
                    &&& eff.voter.voter_weight_record_bump == voter_data@[65]
                    &&& eff.voter.deposits@ == ds
                    &&& eff.voter.wf()
                    &&& eff.voter_data@ == eff.voter.spec_bytes()
                    &&& eff.transfer_step == (TokenStep::Transfer {
                        source: *deposit_token_account,
                        destination: *exchange_vault_account,
                        authority: authority.address,
                        amount,
                    })
                    &&& voting_token.is_frozen ==> eff.mint_steps@ =~= seq![
                        TokenStep::Thaw {
                            account: *voting_token_account,
                            mint: *voting_mint,
                            authority: registrar_account.address,
                        },
                        TokenStep::MintTo {
                            mint: *voting_mint,
                            destination: *voting_token_account,
                            authority: registrar_account.address,
                            amount,
                        },
                        TokenStep::Freeze {
                            account: *voting_token_account,
                            mint: *voting_mint,
                            authority: registrar_account.address,
                        },
                    ]
                    &&& !voting_token.is_frozen ==> eff.mint_steps@ =~= seq![
                        TokenStep::MintTo {
                            mint: *voting_mint,
                            destination: *voting_token_account,
                            authority: registrar_account.address,
                            amount,
                        },
                        TokenStep::Freeze {
                            account: *voting_token_account,
                            mint: *voting_mint,
                            authority: registrar_account.address,
                        },
                    ]
                    &&& eff.realm == Address::spec_from_bytes(registrar_data@.subrange(32, 64))
                    &&& eff.registrar_bump == registrar_data@[96]
                }),
            }
        }),
{
    if !authority.is_signer {
        return Err(OpError::MissingRequiredSignature);
    }
    let registrar = match Registrar::try_from_slice(registrar_data) {
        Ok(reg) => reg,
        Err(e) => {
            return Err(e);
        },
    };
    let mut voter = match Voter::try_from_slice(voter_data) {
        Ok(v) => v,
        Err(e) => {
            return Err(e);
        },
    };
    match voter.assert_voter(&authority.address, &registrar_account.address) {
        Ok(()) => (),
        Err(e) => {
            return Err(e);
        },
    };
    match DepositEntry::update_deposit(&mut voter, &registrar, update_idx, amount) {
        Ok(()) => (),
        Err(e) => {
            return Err(e);
        },
    };
    let voter_bytes = voter.serialize();
    let transfer_step = transfer_spl_token(
        deposit_token_account,
        exchange_vault_account,
        &authority.address,
        amount,
    );
    let mint_steps = mint_token_signed(
        voting_token,
        voting_token_account,
        voting_mint,
        &registrar_account.address,
        amount,
    );
    Ok(
        UpdateDepositEffects {
            voter,
            voter_data: voter_bytes,
            transfer_step,
            mint_steps,
            realm: registrar.realm,
            registrar_bump: registrar.bump,
        },
    )
}

} // verus!
