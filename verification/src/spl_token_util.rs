//! Planning of token-custody work. Transfers, mints and the freeze/thaw
//! bracket are performed by the host's token program under the registrar's
//! derived signing authority; the engine decides which calls must happen,
//! in what order and with what arguments, and returns them as steps.

use crate::account_info_util::AccountStatus;
use crate::address::Address;
use crate::error::OpError;
use vstd::prelude::*;

verus! {

/// Size in bytes of a token-mint account, as the host token program packs
/// it.
pub const MINT_ACCOUNT_SIZE: usize = 82;

/// What the engine reads of an unpacked token account.
#[derive(Clone, Copy, Debug, PartialEq, Eq, Structural)]
pub struct TokenAccountState {
    /// The asset this account holds.
    pub mint: Address,
    /// The account's owner.
    pub owner: Address,
    /// The balance held.
    pub amount: u64,
    /// Whether the account is currently frozen.
    pub is_frozen: bool,
}

/// One token-custody call the host must perform, in order. Calls under a
/// derived authority are signed with that record's seeds and completion
/// byte.
#[derive(Clone, Copy, Debug, PartialEq, Eq, Structural)]
pub enum TokenStep {
    /// Create a fresh record of `size` bytes at `account`, funded by
    /// `payer` with `lamports`, owned by the token program `owner`.
    CreateAccount { payer: Address, account: Address, lamports: u64, size: usize, owner: Address },
    /// Initialize the record at `mint` as a token mint of the given
    /// precision, with the authority also set as freeze authority.
    InitializeMint { mint: Address, mint_authority: Address, decimals: u8 },
    /// Create the associated token account of `owner` for `mint`, funded by
    /// `payer`.
    CreateAssociatedTokenAccount { payer: Address, owner: Address, mint: Address },
    /// Move `amount` tokens from `source` to `destination` under the
    /// source owner's own signature.
    Transfer { source: Address, destination: Address, authority: Address, amount: u64 },
    /// Move `amount` tokens from `source` to `destination`, signed with the
    /// authority's derivation seeds.
    TransferSigned { source: Address, destination: Address, authority: Address, amount: u64 },
    /// Unfreeze `account` of `mint`, signed with the authority's
    /// derivation seeds.
    Thaw { account: Address, mint: Address, authority: Address },
    /// Mint `amount` new tokens of `mint` to `destination`, signed with the
    /// authority's derivation seeds.
    MintTo { mint: Address, destination: Address, authority: Address, amount: u64 },
    /// Freeze `account` of `mint`, signed with the authority's derivation
    /// seeds.
    Freeze { account: Address, mint: Address, authority: Address },
}

/// Plans the creation and initialization of a token mint at a derived
/// address: the target must be empty, and the plan creates a record of the
/// mint size owned by the token program, then initializes it with
/// `mint_authority` as both mint and freeze authority.
pub fn create_and_initialize_mint(
    payer: &Address,
    account: &AccountStatus,
    mint_authority: &Address,
    decimals: u8,
    token_program: &Address,
    minimum_balance: u64,
) -> (r: Result<Vec<TokenStep>, OpError>)
    ensures
        !account.data_is_empty ==> r == Err::<Vec<TokenStep>, OpError>(
            OpError::AccountAlreadyInitialized,
        ),
        account.data_is_empty ==> (r matches Ok(steps) && steps@ =~= seq![
            TokenStep::CreateAccount {
                payer: *payer,
                account: account.address,
                lamports: minimum_balance,
                size: MINT_ACCOUNT_SIZE,
                owner: *token_program,
            },
            TokenStep::InitializeMint {
                mint: account.address,
                mint_authority: *mint_authority,
                decimals,
            },
        ]),
{
    if !account.data_is_empty {
        return Err(OpError::AccountAlreadyInitialized);
    }
    let mut steps: Vec<TokenStep> = Vec::new();
    steps.push(
        TokenStep::CreateAccount {
            payer: *payer,
            account: account.address,
            lamports: minimum_balance,
            size: MINT_ACCOUNT_SIZE,
            owner: *token_program,
        },
    );
    steps.push(
        TokenStep::InitializeMint {
            mint: account.address,
            mint_authority: *mint_authority,
            decimals,
        },
    );
    Ok(steps)
}

/// Plans a plain transfer: `amount` moves from the source account to the
/// destination under the source owner's own signature.
pub fn transfer_spl_token(
    source_account: &Address,
    destination_account: &Address,
    source_owner: &Address,
    amount: u64,
) -> (r: TokenStep)
    ensures
        r == (TokenStep::Transfer {
            source: *source_account,
            destination: *destination_account,
            authority: *source_owner,
            amount,
        }),
{
    TokenStep::Transfer {
        source: *source_account,
        destination: *destination_account,
        authority: *source_owner,
        amount,
    }
}

/// Plans a transfer signed with the authority's derivation seeds rather
/// than a depositor's own signature.
pub fn transfer_spl_token_signed(
    source_account: &Address,
    destination_account: &Address,
    authority: &Address,
    amount: u64,
) -> (r: TokenStep)
    ensures
        r == (TokenStep::TransferSigned {
            source: *source_account,
            destination: *destination_account,
            authority: *authority,
            amount,
        }),
{
    TokenStep::TransferSigned {
        source: *source_account,
        destination: *destination_account,
        authority: *authority,
        amount,
    }
}

/// Plans the credential adjustment bracket: thaw the destination if it is
/// currently frozen, mint `amount` to it, and freeze it again — so the
/// credential is non-transferable at rest and only momentarily unlocked,
/// always under the derived authority, never the depositor's.
pub fn mint_token_signed(
    destination: &TokenAccountState,
    destination_address: &Address,
    mint: &Address,
    token_owner: &Address,
    amount: u64,
) -> (r: Vec<TokenStep>)
    ensures
        destination.is_frozen ==> r@ =~= seq![
            TokenStep::Thaw {
                account: *destination_address,
                mint: *mint,
                authority: *token_owner,
            },
            TokenStep::MintTo {
                mint: *mint,
                destination: *destination_address,
                authority: *token_owner,
                amount,
            },
            TokenStep::Freeze {
                account: *destination_address,
                mint: *mint,
                authority: *token_owner,
            },
        ],
        !destination.is_frozen ==> r@ =~= seq![
            TokenStep::MintTo {
                mint: *mint,
                destination: *destination_address,
                authority: *token_owner,
                amount,
            },
            TokenStep::Freeze {
                account: *destination_address,
                mint: *mint,
                authority: *token_owner,
            },
        ],
{
    let mut steps: Vec<TokenStep> = Vec::new();
    if destination.is_frozen {
        steps.push(
            TokenStep::Thaw {
                account: *destination_address,
                mint: *mint,
                authority: *token_owner,
            },
        );
    }
    steps.push(
        TokenStep::MintTo {
            mint: *mint,
            destination: *destination_address,
            authority: *token_owner,
            amount,
        },
    );
    steps.push(
        TokenStep::Freeze { account: *destination_address, mint: *mint, authority: *token_owner },
    );
    steps
}

} // verus!
