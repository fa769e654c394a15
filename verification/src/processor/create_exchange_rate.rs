//! The set-exchange-rate operation: writes one asset's conversion
//! parameters into the registrar's table and plans the provisioning of the
//! asset's escrow vault and credential mint.

use crate::account_info_util::AccountStatus;
use crate::address::Address;
use crate::error::{GovError, OpError};
use crate::spl_token_util::{create_and_initialize_mint, TokenStep, MINT_ACCOUNT_SIZE};
use crate::state::{
    spec_table_from_bytes, ExchangeRateEntry, Registrar, RATE_ENTRY_COUNT, REGISTRAR_LEN,
};
use vstd::prelude::*;

verus! {

/// What set-exchange-rate leaves for the host: the updated registrar, its
/// new record image, and the custody steps that provision the asset.
pub struct CreateExchangeRateEffects {
    /// The registrar with the entry written into its table.
    pub registrar: Registrar,
    /// The registrar's new record image, to overwrite the record.
    pub registrar_data: Vec<u8>,
    /// Custody steps: the escrow vault's creation, then the credential
    /// mint's creation and initialization, signed with `voting_mint_bump`.
    pub token_steps: Vec<TokenStep>,
}

/// Runs set-exchange-rate: the caller must have signed and be the
/// registrar's stored authority; the escrow vault and credential mint must
/// not exist yet; the supplied rate must be positive and the slot index in
/// bounds. On success the entry stands in the chosen slot, every other
/// slot and field unchanged, and the asset's vault and credential mint are
/// planned, the mint under the registrar's authority at the asset's native
/// precision.
pub fn process(
    authority: &AccountStatus,
    registrar_account: &AccountStatus,
    registrar_data: &[u8],
    deposit_mint: &Address,
    deposit_mint_decimals: u8,
    exchange_vault_account: &AccountStatus,
    voting_mint_account: &AccountStatus,
    token_program: &Address,
    idx: u16,
    er: ExchangeRateEntry,
    voting_mint_min_balance: u64,
) -> (r: Result<CreateExchangeRateEffects, OpError>)
    ensures
        !authority.is_signer ==> r == Err::<CreateExchangeRateEffects, OpError>(
            OpError::MissingRequiredSignature,
        ),
        authority.is_signer && registrar_data@.len() != REGISTRAR_LEN ==> r == Err::<
            CreateExchangeRateEffects,
            OpError,
        >(OpError::InvalidAccountData),
        ({
            let gate = authority.is_signer && registrar_data@.len() == REGISTRAR_LEN
                && Address::spec_from_bytes(registrar_data@.subrange(0, 32)) == authority.address;
            &&& authority.is_signer && registrar_data@.len() == REGISTRAR_LEN
                && Address::spec_from_bytes(registrar_data@.subrange(0, 32)) != authority.address
                ==> r == Err::<CreateExchangeRateEffects, OpError>(
                OpError::Gov(GovError::AuthorityMismatch),
            )
            &&& gate && !exchange_vault_account.data_is_empty ==> r == Err::<
                CreateExchangeRateEffects,
                OpError,
            >(OpError::AccountAlreadyInitialized)
            &&& gate && exchange_vault_account.data_is_empty
                && !voting_mint_account.data_is_empty ==> r == Err::<
                CreateExchangeRateEffects,
                OpError,
            >(OpError::AccountAlreadyInitialized)
            &&& gate && exchange_vault_account.data_is_empty && voting_mint_account.data_is_empty
                && er.rate == 0 ==> r == Err::<CreateExchangeRateEffects, OpError>(
                OpError::Gov(GovError::InvalidRate),
            )
            &&& gate && exchange_vault_account.data_is_empty && voting_mint_account.data_is_empty
                && er.rate > 0 && (idx as int) >= RATE_ENTRY_COUNT ==> r == Err::<
                CreateExchangeRateEffects,
                OpError,
            >(OpError::Gov(GovError::InvalidDepositId))
            &&& gate && exchange_vault_account.data_is_empty && voting_mint_account.data_is_empty
                && er.rate > 0 && (idx as int) < RATE_ENTRY_COUNT ==> (r matches Ok(eff) && {
                &&& eff.registrar.authority == authority.address
                &&& eff.registrar.realm == Address::spec_from_bytes(
                    registrar_data@.subrange(32, 64),
                )
                &&& eff.registrar.realm_community_mint == Address::spec_from_bytes(
                    registrar_data@.subrange(64, 96),
                )
                &&& eff.registrar.bump == registrar_data@[96]
                &&& eff.registrar.rate_decimals == registrar_data@[REGISTRAR_LEN - 1]
                &&& eff.registrar.rates@ == spec_table_from_bytes(
                    registrar_data@.subrange(97, 97 + 41 * RATE_ENTRY_COUNT),
                    RATE_ENTRY_COUNT as nat,
                ).update(idx as int, er)
                &&& eff.registrar.wf()
                &&& eff.registrar_data@ == eff.registrar.spec_bytes()
                &&& eff.token_steps@ =~= seq![
                    TokenStep::CreateAssociatedTokenAccount {
                        payer: authority.address,
                        owner: registrar_account.address,
                        mint: *deposit_mint,
                    },
                    TokenStep::CreateAccount {
                        payer: authority.address,
                        account: voting_mint_account.address,
                        lamports: voting_mint_min_balance,
                        size: MINT_ACCOUNT_SIZE,
                        owner: *token_program,
                    },
                    TokenStep::InitializeMint {
                        mint: voting_mint_account.address,
                        mint_authority: registrar_account.address,
                        decimals: deposit_mint_decimals,
                    },
                ]
            })
        }),
{
    if !authority.is_signer {
        return Err(OpError::MissingRequiredSignature);
    }
    let mut registrar = match Registrar::check_and_get_registrar(
        registrar_data,
        &authority.address,
    ) {
        Ok(reg) => reg,
        Err(e) => {
            return Err(e);
        },
    };
    if !exchange_vault_account.data_is_empty {
        return Err(OpError::AccountAlreadyInitialized);
    }
    let mut token_steps: Vec<TokenStep> = Vec::new();
    token_steps.push(
        TokenStep::CreateAssociatedTokenAccount {
            payer: authority.address,
            owner: registrar_account.address,
            mint: *deposit_mint,
        },
    );
    let mut mint_steps = match create_and_initialize_mint(
        &authority.address,
        voting_mint_account,
        &registrar_account.address,
        deposit_mint_decimals,
        token_program,
        voting_mint_min_balance,
    ) {
        Ok(steps) => steps,
        Err(e) => {
            return Err(e);
        },
    };
    token_steps.append(&mut mint_steps);
    if !(er.rate > 0) {
        return Err(OpError::Gov(GovError::InvalidRate));
    }
    if (idx as usize) >= registrar.rates.len() {
        return Err(OpError::Gov(GovError::InvalidDepositId));
    }
    registrar.rates.set(idx as usize, er);
    let registrar_bytes = registrar.serialize();
    Ok(
        CreateExchangeRateEffects {
            registrar,
            registrar_data: registrar_bytes,
            token_steps,
        },
    )
}

} // verus!
