use voting_registrar::account_info_util::{
    create_and_serialize_account, create_and_serialize_account_signed, Acc, AccountStatus,
    SystemStep,
};
use voting_registrar::account_info_util::assert_and_serialized_readonly;
use voting_registrar::state::{ExchangeRateEntry, Registrar, Voter, DEPOSIT_ENTRY_COUNT};
use voting_registrar::{Address, OpError};

fn addr(tag: u8) -> Address {
    Address { w0: tag as u64, w1: 0, w2: 0, w3: 0x99 }
}

fn address_from_bytes(bytes: &[u8; 32]) -> Address {
    let word = |i: usize| {
        let mut w = [0u8; 8];
        w.copy_from_slice(&bytes[i * 8..i * 8 + 8]);
        u64::from_le_bytes(w)
    };
    Address { w0: word(0), w1: word(1), w2: word(2), w3: word(3) }
}

fn address_to_bytes(a: &Address) -> [u8; 32] {
    let mut out = [0u8; 32];
    out[0..8].copy_from_slice(&a.w0.to_le_bytes());
    out[8..16].copy_from_slice(&a.w1.to_le_bytes());
    out[16..24].copy_from_slice(&a.w2.to_le_bytes());
    out[24..32].copy_from_slice(&a.w3.to_le_bytes());
    out
}

#[test]
fn plain_record_plan_creates_then_writes() {
    let program = addr(100);
    let account = AccountStatus {
        address: addr(1),
        lamports: 0,
        data_is_empty: true,
        owner: program,
        is_signer: false,
    };
    let data = vec![1u8, 2, 3];
    let steps =
        create_and_serialize_account(&account, &data, None, &addr(2), &program, 777).unwrap();
    assert_eq!(steps.len(), 2);
    match &steps[0] {
        SystemStep::CreateAccount { lamports, size, owner, .. } => {
            assert_eq!(*lamports, 777);
            assert_eq!(*size, 3);
            assert_eq!(*owner, program);
        }
        other => panic!("expected creation first, got {:?}", other),
    }
    match &steps[1] {
        SystemStep::WriteData { account: a, data: d } => {
            assert_eq!(*a, addr(1));
            assert_eq!(*d, data);
        }
        other => panic!("expected a write last, got {:?}", other),
    }
}

#[test]
fn plain_record_plan_rejects_populated_target() {
    let program = addr(100);
    let account = AccountStatus {
        address: addr(1),
        lamports: 5,
        data_is_empty: false,
        owner: program,
        is_signer: false,
    };
    let r = create_and_serialize_account(&account, &vec![0u8], None, &addr(2), &program, 0);
    assert!(matches!(r, Err(OpError::AccountAlreadyInitialized)));
}

#[test]
fn signed_plan_derives_the_completion_byte() {
    let program = addr(100);
    let pid = solana_program::pubkey::Pubkey::new_from_array(address_to_bytes(&program));
    let seed = address_to_bytes(&addr(50));
    let seeds_ref: [&[u8]; 1] = [seed.as_ref()];
    let (pda, bump) = solana_program::pubkey::Pubkey::find_program_address(&seeds_ref, &pid);
    let target = AccountStatus {
        address: address_from_bytes(&pda.to_bytes()),
        lamports: 0,
        data_is_empty: true,
        owner: program,
        is_signer: false,
    };
    let seeds = vec![seed.to_vec()];
    let (steps, planned_bump) = create_and_serialize_account_signed(
        &target,
        &vec![9u8; 4],
        None,
        &addr(2),
        &program,
        &seeds,
        None,
        1000,
    )
    .unwrap();
    assert_eq!(planned_bump, bump);
    assert_eq!(steps.len(), 2);

    // a target that is not the derived address is refused
    let elsewhere = AccountStatus { address: addr(51), ..target };
    let r = create_and_serialize_account_signed(
        &elsewhere,
        &vec![9u8; 4],
        None,
        &addr(2),
        &program,
        &seeds,
        None,
        1000,
    );
    assert!(matches!(r, Err(OpError::InvalidSeeds)));
}

#[test]
fn signed_plan_upgrades_a_funded_record_in_place() {
    let program = addr(100);
    let pid = solana_program::pubkey::Pubkey::new_from_array(address_to_bytes(&program));
    let seed: [u8; 1] = [1];
    let seeds_ref: [&[u8]; 1] = [seed.as_ref()];
    let (pda, derived_bump) = solana_program::pubkey::Pubkey::find_program_address(&seeds_ref, &pid);
    let target = AccountStatus {
        address: address_from_bytes(&pda.to_bytes()),
        lamports: 40,
        data_is_empty: true,
        owner: program,
        is_signer: false,
    };
    let data = vec![7u8; 10];
    let (steps, bump) = create_and_serialize_account_signed(
        &target,
        &data,
        None,
        &addr(2),
        &program,
        &vec![vec![1u8]],
        Some(derived_bump),
        100,
    )
    .unwrap();
    assert_eq!(bump, derived_bump);
    assert_eq!(steps.len(), 4);
    assert!(matches!(
        steps[0],
        SystemStep::Transfer { lamports: 60, .. }
    ));
    assert!(matches!(steps[1], SystemStep::Allocate { size: 10, .. }));
    assert!(matches!(steps[2], SystemStep::Assign { .. }));
    assert!(matches!(steps[3], SystemStep::WriteData { .. }));

    // already funded to the minimum: no top-up step
    let funded = AccountStatus { lamports: 100, ..target };
    let (steps, _bump) = create_and_serialize_account_signed(
        &funded,
        &data,
        None,
        &addr(2),
        &program,
        &vec![vec![1u8]],
        Some(derived_bump),
        100,
    )
    .unwrap();
    assert_eq!(steps.len(), 3);
    assert!(matches!(steps[0], SystemStep::Allocate { .. }));

    // a completion byte that is not the derived one is refused
    let r = create_and_serialize_account_signed(
        &target,
        &data,
        None,
        &addr(2),
        &program,
        &vec![vec![1u8]],
        Some(derived_bump.wrapping_add(1)),
        100,
    );
    assert!(matches!(r, Err(OpError::InvalidSeeds)));

    // a supplied completion byte does not excuse a forged address
    let forged = AccountStatus { address: addr(77), ..target };
    let r = create_and_serialize_account_signed(
        &forged,
        &data,
        None,
        &addr(2),
        &program,
        &vec![vec![1u8]],
        Some(derived_bump),
        100,
    );
    assert!(matches!(r, Err(OpError::InvalidSeeds)));
}

#[test]
fn readonly_record_check_validates_flags_and_bytes() {
    let registrar = Registrar {
        authority: addr(1),
        realm: addr(2),
        realm_community_mint: addr(3),
        bump: 0,
        rates: vec![ExchangeRateEntry::default(); 2],
        rate_decimals: 6,
    };
    let bytes = registrar.serialize();
    assert_eq!(
        assert_and_serialized_readonly::<Registrar>(false, false, &bytes),
        Ok(())
    );
    assert_eq!(
        assert_and_serialized_readonly::<Registrar>(true, false, &bytes),
        Err(OpError::UninitializedAccount)
    );
    assert_eq!(
        assert_and_serialized_readonly::<Registrar>(false, true, &bytes),
        Err(OpError::InvalidAccountData)
    );
    assert_eq!(
        assert_and_serialized_readonly::<Registrar>(false, false, &bytes[1..]),
        Err(OpError::InvalidAccountData)
    );
    let voter = Voter {
        authority: addr(1),
        registrar: addr(2),
        voter_bump: 0,
        voter_weight_record_bump: 0,
        deposits: vec![Default::default(); DEPOSIT_ENTRY_COUNT],
    };
    let voter_bytes = voter.serialize();
    assert_eq!(
        assert_and_serialized_readonly::<Voter>(false, false, &voter_bytes),
        Ok(())
    );
}

#[test]
fn record_types_declare_their_storage_sizing() {
    let entry = ExchangeRateEntry::default();
    assert_eq!(entry.get_max_size(), Some(41));
    let registrar = Registrar {
        authority: addr(1),
        realm: addr(2),
        realm_community_mint: addr(3),
        bump: 0,
        rates: vec![ExchangeRateEntry::default(); 2],
        rate_decimals: 0,
    };
    assert_eq!(registrar.get_max_size(), None);
    let voter = Voter {
        authority: addr(1),
        registrar: addr(2),
        voter_bump: 0,
        voter_weight_record_bump: 0,
        deposits: vec![Default::default(); DEPOSIT_ENTRY_COUNT],
    };
    assert_eq!(voter.get_max_size(), None);
}
