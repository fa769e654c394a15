//! The create-voter operation: builds a depositor's voter record and its
//! empty voting-weight placeholder, and plans both records' storage at
//! their derived addresses.

use crate::account_info_util::{create_and_serialize_account_signed, AccountStatus, SystemStep};
use crate::address::Address;
use crate::error::OpError;
use crate::pda::{pda_of, spec_pda_matches};
use crate::state::spec_voter_weight_record_label;
use crate::state::{
    DepositEntry, Registrar, Voter, VoterWeightRecord, DEPOSIT_ENTRY_COUNT, REGISTRAR_LEN,
    VOTER_LEN, VOTER_WEIGHT_RECORD_LEN,
};
use vstd::prelude::*;

verus! {

/// What create-voter leaves for the host to carry out: the two new records
/// and the storage steps that put each at its derived address.
pub struct CreateVoterEffects {
    /// The new voter record, all slots unused.
    pub voter: Voter,
    /// The new, empty voting-weight placeholder.
    pub weight_record: VoterWeightRecord,
    /// Storage steps for the voter record, signed with `voter_bump`.
    pub voter_steps: Vec<SystemStep>,
    /// Storage steps for the weight record, signed with
    /// `voter_weight_record_bump`.
    pub weight_record_steps: Vec<SystemStep>,
}

/// Runs create-voter: either the payer or the depositor's authority must
/// have signed, the referenced registrar record must parse, and each new
/// record's address and completion byte must match its derivation. The new
/// voter carries the authority and the registrar's address with every slot
/// unused; the weight placeholder carries the registrar's realm and
/// community mint, the authority as owner, and zero weight.
pub fn process(
    program_id: &Address,
    payer: &AccountStatus,
    authority: &AccountStatus,
    registrar_account: &AccountStatus,
    registrar_data: &[u8],
    voter_account: &AccountStatus,
    voter_weight_record_account: &AccountStatus,
    voter_bump: u8,
    voter_weight_record_bump: u8,
    voter_min_balance: u64,
    weight_record_min_balance: u64,
) -> (r: Result<CreateVoterEffects, OpError>)
    ensures
        !payer.is_signer && !authority.is_signer ==> r == Err::<CreateVoterEffects, OpError>(
            OpError::MissingRequiredSignature,
        ),
        (payer.is_signer || authority.is_signer) && registrar_data@.len() != REGISTRAR_LEN ==> r
            == Err::<CreateVoterEffects, OpError>(OpError::InvalidAccountData),
        ({
            let gate = (payer.is_signer || authority.is_signer) && registrar_data@.len()
                == REGISTRAR_LEN;
            let voter_seeds_view = seq![
                registrar_account.address.spec_bytes(),
                authority.address.spec_bytes(),
            ];
            let weight_seeds_view = seq![
                spec_voter_weight_record_label(),
                registrar_account.address.spec_bytes(),
                authority.address.spec_bytes(),
            ];
            let voter_pda_ok = spec_pda_matches(
                voter_seeds_view,
                program_id.spec_bytes(),
                voter_account.address,
            ) && pda_of(voter_seeds_view, program_id.spec_bytes()).unwrap().1 == voter_bump;
            let weight_pda_ok = spec_pda_matches(
                weight_seeds_view,
                program_id.spec_bytes(),
                voter_weight_record_account.address,
            ) && pda_of(weight_seeds_view, program_id.spec_bytes()).unwrap().1
                == voter_weight_record_bump;
            &&& gate && !voter_pda_ok ==> r == Err::<CreateVoterEffects, OpError>(
                OpError::InvalidSeeds,
            )
            &&& gate && voter_pda_ok && !weight_pda_ok ==> r == Err::<
                CreateVoterEffects,
                OpError,
            >(OpError::InvalidSeeds)
            &&& gate && voter_pda_ok && weight_pda_ok ==> (r matches Ok(eff) && {
                &&& eff.voter.authority == authority.address
                &&& eff.voter.registrar == registrar_account.address
                &&& eff.voter.voter_bump == voter_bump
                &&& eff.voter.voter_weight_record_bump == voter_weight_record_bump
                &&& eff.voter.wf()
                &&& forall|j: int|
                    0 <= j < eff.voter.deposits@.len() ==> #[trigger] eff.voter.deposits@[j]
                        == DepositEntry::spec_default()
                &&& eff.weight_record.realm == Address::spec_from_bytes(
                    registrar_data@.subrange(32, 64),
                )
                &&& eff.weight_record.governing_token_mint == Address::spec_from_bytes(
                    registrar_data@.subrange(64, 96),
                )
                &&& eff.weight_record.governing_token_owner == authority.address
                &&& eff.weight_record.voter_weight == 0
                &&& eff.voter_steps@.len() >= 2
                &&& (eff.voter_steps@.last() matches SystemStep::WriteData {
                    account: a,
                    data: d,
                } && a == voter_account.address && d@ == eff.voter.spec_bytes())
                &&& voter_account.lamports == 0 ==> eff.voter_steps@.len() == 2
                    && eff.voter_steps@[0] == (SystemStep::CreateAccount {
                    payer: authority.address,
                    account: voter_account.address,
                    lamports: voter_min_balance,
                    size: VOTER_LEN,
                    owner: *program_id,
                })
                &&& voter_account.lamports > 0 ==> {
                    let top_up = if voter_min_balance >= 1 {
                        voter_min_balance as int - voter_account.lamports
                    } else {
                        1 - voter_account.lamports
                    };
                    let shortfall = if top_up > 0 {
                        1int
                    } else {
                        0int
                    };
                    &&& eff.voter_steps@.len() == 3 + shortfall
                    &&& top_up > 0 ==> eff.voter_steps@[0] == (SystemStep::Transfer {
                        from: authority.address,
                        to: voter_account.address,
                        lamports: top_up as u64,
                    })
                    &&& eff.voter_steps@[shortfall] == (SystemStep::Allocate {
                        account: voter_account.address,
                        size: VOTER_LEN,
                    })
                    &&& eff.voter_steps@[shortfall + 1] == (SystemStep::Assign {
                        account: voter_account.address,
                        owner: *program_id,
                    })
                }
                &&& eff.weight_record_steps@.len() >= 2
                &&& (eff.weight_record_steps@.last() matches SystemStep::WriteData {
                    account: a,
                    data: d,
                } && a == voter_weight_record_account.address && d@
                    == eff.weight_record.spec_initial_bytes())
                &&& voter_weight_record_account.lamports == 0
                    ==> eff.weight_record_steps@.len() == 2 && eff.weight_record_steps@[0]
                    == (SystemStep::CreateAccount {
                    payer: payer.address,
                    account: voter_weight_record_account.address,
                    lamports: weight_record_min_balance,
                    size: VOTER_WEIGHT_RECORD_LEN,
                    owner: *program_id,
                })
                &&& voter_weight_record_account.lamports > 0 ==> {
                    let top_up = if weight_record_min_balance >= 1 {
                        weight_record_min_balance as int - voter_weight_record_account.lamports
                    } else {
                        1 - voter_weight_record_account.lamports
                    };
                    let shortfall = if top_up > 0 {
                        1int
                    } else {
                        0int
                    };
                    &&& eff.weight_record_steps@.len() == 3 + shortfall
                    &&& top_up > 0 ==> eff.weight_record_steps@[0] == (SystemStep::Transfer {
                        from: payer.address,
                        to: voter_weight_record_account.address,
                        lamports: top_up as u64,
                    })
                    &&& eff.weight_record_steps@[shortfall] == (SystemStep::Allocate {
                        account: voter_weight_record_account.address,
                        size: VOTER_WEIGHT_RECORD_LEN,
                    })
                    &&& eff.weight_record_steps@[shortfall + 1] == (SystemStep::Assign {
                        account: voter_weight_record_account.address,
                        owner: *program_id,
                    })
                }
            })
        }),
{
    if !payer.is_signer && !authority.is_signer {
        return Err(OpError::MissingRequiredSignature);
    }
    let registrar = match Registrar::try_from_slice(registrar_data) {
        Ok(reg) => reg,
        Err(e) => {
            return Err(e);
        },
    };
    let mut deposits: Vec<DepositEntry> = Vec::new();
    let mut k: usize = 0;
    while k < DEPOSIT_ENTRY_COUNT
        invariant
            k <= DEPOSIT_ENTRY_COUNT,
            deposits@.len() == k,
            forall|j: int| 0 <= j < k ==> #[trigger] deposits@[j] == DepositEntry::spec_default(),
        decreases DEPOSIT_ENTRY_COUNT - k,
    {
        deposits.push(DepositEntry::default());
        k = k + 1;
    }
    let new_voter = Voter {
        authority: authority.address,
        registrar: registrar_account.address,
        voter_bump,
        voter_weight_record_bump,
        deposits,
    };
    let voter_data = new_voter.serialize();
    let voter_seeds = Voter::get_voter_seeds(&registrar_account.address, &authority.address);
    proof {
        assert(voter_seeds@.map_values(|v: Vec<u8>| v@) =~= seq![
            registrar_account.address.spec_bytes(),
            authority.address.spec_bytes(),
        ]);
    }
    let (voter_steps, _b1) = match create_and_serialize_account_signed(
        voter_account,
        &voter_data,
        None,
        &authority.address,
        program_id,
        &voter_seeds,
        Some(voter_bump),
        voter_min_balance,
    ) {
        Ok(p) => p,
        Err(e) => {
            return Err(e);
        },
    };
    let new_voter_weight_record = VoterWeightRecord {
        realm: registrar.realm,
        governing_token_mint: registrar.realm_community_mint,
        governing_token_owner: authority.address,
        voter_weight: 0,
    };
    let weight_record_data = new_voter_weight_record.initial_bytes();
    let weight_record_seeds = Voter::get_voter_weight_seeds(
        &registrar_account.address,
        &authority.address,
    );
    proof {
        assert(weight_record_seeds@.map_values(|v: Vec<u8>| v@) =~= seq![
            spec_voter_weight_record_label(),
            registrar_account.address.spec_bytes(),
            authority.address.spec_bytes(),
        ]);
    }
    let (weight_record_steps, _b2) = match create_and_serialize_account_signed(
        voter_weight_record_account,
        &weight_record_data,
        None,
        &payer.address,
        program_id,
        &weight_record_seeds,
        Some(voter_weight_record_bump),
        weight_record_min_balance,
    ) {
        Ok(p) => p,
        Err(e) => {
            return Err(e);
        },
    };
    Ok(
        CreateVoterEffects {
            voter: new_voter,
            weight_record: new_voter_weight_record,
            voter_steps,
            weight_record_steps,
        },
    )
}

} // verus!
