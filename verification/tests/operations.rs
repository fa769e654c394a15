use voting_registrar::account_info_util::{AccountStatus, SystemStep};
use voting_registrar::processor::create_deposit;
use voting_registrar::processor::create_exchange_rate;
use voting_registrar::processor::create_registrar;
use voting_registrar::processor::create_voter;
use voting_registrar::processor::update_deposit;
use voting_registrar::spl_token_util::{TokenAccountState, TokenStep};
use voting_registrar::state::{
    ExchangeRateEntry, LockupKind, Registrar, Voter, DEPOSIT_ENTRY_COUNT, SECS_PER_DAY,
};
use voting_registrar::{Address, GovError, OpError};

fn addr(tag: u8) -> Address {
    Address { w0: tag as u64, w1: 0xABCD, w2: 0, w3: 1 }
}

fn address_from_bytes(bytes: &[u8; 32]) -> Address {
    let word = |i: usize| {
        let mut w = [0u8; 8];
        w.copy_from_slice(&bytes[i * 8..i * 8 + 8]);
        u64::from_le_bytes(w)
    };
    Address { w0: word(0), w1: word(1), w2: word(2), w3: word(3) }
}

fn address_to_bytes(a: &Address) -> [u8; 32] {
    let mut out = [0u8; 32];
    out[0..8].copy_from_slice(&a.w0.to_le_bytes());
    out[8..16].copy_from_slice(&a.w1.to_le_bytes());
    out[16..24].copy_from_slice(&a.w2.to_le_bytes());
    out[24..32].copy_from_slice(&a.w3.to_le_bytes());
    out
}

fn account(address: Address, is_signer: bool) -> AccountStatus {
    AccountStatus { address, lamports: 0, data_is_empty: true, owner: addr(0), is_signer }
}

fn program_id() -> Address {
    addr(100)
}

/// A record address and completion byte, computed with the host's own
/// derivation so the operations' address checks pass.
fn derive(seeds: &[&[u8]]) -> (Address, u8) {
    let pid = solana_program::pubkey::Pubkey::new_from_array(address_to_bytes(&program_id()));
    let (pda, bump) = solana_program::pubkey::Pubkey::find_program_address(seeds, &pid);
    (address_from_bytes(&pda.to_bytes()), bump)
}

/// The derived address of the per-asset credential mint.
fn derived_voting_mint(registrar: &Address, deposit_mint: &Address) -> Address {
    let reg_bytes = address_to_bytes(registrar);
    let mint_bytes = address_to_bytes(deposit_mint);
    derive(&[reg_bytes.as_ref(), mint_bytes.as_ref()]).0
}

fn sample_registrar() -> Registrar {
    Registrar {
        authority: addr(1),
        realm: addr(2),
        realm_community_mint: addr(3),
        bump: 251,
        rates: vec![
            ExchangeRateEntry { mint: addr(4), rate: 1, decimals: 6 },
            ExchangeRateEntry { mint: addr(5), rate: 1_000_000, decimals: 0 },
        ],
        rate_decimals: 6,
    }
}

fn sample_voter(registrar_address: Address) -> Voter {
    Voter {
        authority: addr(7),
        registrar: registrar_address,
        voter_bump: 9,
        voter_weight_record_bump: 10,
        deposits: vec![Default::default(); DEPOSIT_ENTRY_COUNT],
    }
}

fn token(mint: Address, owner: Address, frozen: bool) -> TokenAccountState {
    TokenAccountState { mint, owner, amount: 0, is_frozen: frozen }
}

struct DepositSetup {
    registrar_account: AccountStatus,
    registrar_data: Vec<u8>,
    voter_data: Vec<u8>,
    deposit_mint: Address,
    voting_mint: Address,
}

fn deposit_setup() -> DepositSetup {
    let registrar = sample_registrar();
    let registrar_account = account(addr(20), false);
    let voter = sample_voter(registrar_account.address);
    let deposit_mint = addr(4);
    let voting_mint = derived_voting_mint(&registrar_account.address, &deposit_mint);
    DepositSetup {
        registrar_account,
        registrar_data: registrar.serialize(),
        voter_data: voter.serialize(),
        deposit_mint,
        voting_mint,
    }
}

fn run_create_deposit(
    s: &DepositSetup,
    voter_data: &[u8],
    amount: u64,
    days: i32,
    now: i64,
) -> Result<create_deposit::CreateDepositEffects, OpError> {
    let authority = account(addr(7), true);
    create_deposit::process(
        &program_id(),
        &authority,
        &s.registrar_account,
        &s.registrar_data,
        voter_data,
        &s.deposit_mint,
        &s.voting_mint,
        &addr(30),
        &token(s.deposit_mint, addr(7), false),
        &addr(31),
        &token(s.deposit_mint, s.registrar_account.address, false),
        &addr(32),
        &Some(token(s.voting_mint, addr(7), true)),
        LockupKind::Cliff,
        amount,
        days,
        now,
    )
}

#[test]
fn create_registrar_builds_empty_table() {
    let payer = account(addr(11), true);
    let realm = addr(2);
    let realm_bytes = address_to_bytes(&realm);
    let (registrar_address, registrar_bump) = derive(&[realm_bytes.as_ref()]);
    let registrar_account = account(registrar_address, false);
    let (reg, steps) = create_registrar::process(
        &program_id(),
        &payer,
        &addr(1),
        &realm,
        &addr(3),
        &registrar_account,
        6,
        registrar_bump,
        890_880,
    )
    .unwrap();
    assert_eq!(reg.authority, addr(1));
    assert_eq!(reg.realm, realm);
    assert_eq!(reg.realm_community_mint, addr(3));
    assert_eq!(reg.bump, registrar_bump);
    assert_eq!(reg.rate_decimals, 6);
    assert_eq!(reg.rates, vec![ExchangeRateEntry::default(); 2]);
    match steps.last().unwrap() {
        SystemStep::WriteData { account: a, data } => {
            assert_eq!(*a, registrar_account.address);
            assert_eq!(*data, reg.serialize());
        }
        other => panic!("expected a write step, got {:?}", other),
    }
}

#[test]
fn create_registrar_requires_payer_signature() {
    let payer = account(addr(11), false);
    let r = create_registrar::process(
        &program_id(),
        &payer,
        &addr(1),
        &addr(2),
        &addr(3),
        &account(addr(20), false),
        6,
        251,
        0,
    );
    assert!(matches!(r, Err(OpError::MissingRequiredSignature)));
}

#[test]
fn create_registrar_rejects_populated_target() {
    let payer = account(addr(11), true);
    let realm = addr(2);
    let realm_bytes = address_to_bytes(&realm);
    let (registrar_address, registrar_bump) = derive(&[realm_bytes.as_ref()]);
    let mut registrar_account = account(registrar_address, false);
    registrar_account.data_is_empty = false;
    let r = create_registrar::process(
        &program_id(),
        &payer,
        &addr(1),
        &realm,
        &addr(3),
        &registrar_account,
        6,
        registrar_bump,
        0,
    );
    assert!(matches!(r, Err(OpError::AccountAlreadyInitialized)));
}

#[test]
fn create_registrar_rejects_forged_address() {
    let payer = account(addr(11), true);
    // an empty, signed request, but the target is not the realm-derived
    // address
    let r = create_registrar::process(
        &program_id(),
        &payer,
        &addr(1),
        &addr(2),
        &addr(3),
        &account(addr(20), false),
        6,
        251,
        0,
    );
    assert!(matches!(r, Err(OpError::InvalidSeeds)));
}

#[test]
fn create_registrar_rejects_wrong_completion_byte() {
    let payer = account(addr(11), true);
    let realm = addr(2);
    let realm_bytes = address_to_bytes(&realm);
    let (registrar_address, registrar_bump) = derive(&[realm_bytes.as_ref()]);
    let r = create_registrar::process(
        &program_id(),
        &payer,
        &addr(1),
        &realm,
        &addr(3),
        &account(registrar_address, false),
        6,
        registrar_bump.wrapping_add(1),
        0,
    );
    assert!(matches!(r, Err(OpError::InvalidSeeds)));
}

#[test]
fn set_exchange_rate_writes_the_slot() {
    let registrar = sample_registrar();
    let data = registrar.serialize();
    let authority = account(addr(1), true);
    let entry = ExchangeRateEntry { mint: addr(40), rate: 25, decimals: 2 };
    let eff = create_exchange_rate::process(
        &authority,
        &account(addr(20), false),
        &data,
        &addr(40),
        2,
        &account(addr(41), false),
        &account(addr(42), false),
        &addr(43),
        1,
        entry,
        1_461_600,
    )
    .unwrap();
    assert_eq!(eff.registrar.rates[1], entry);
    assert_eq!(eff.registrar.rates[0], registrar.rates[0]);
    assert_eq!(eff.registrar_data, eff.registrar.serialize());
    assert_eq!(eff.token_steps.len(), 3);
    assert!(matches!(
        eff.token_steps[0],
        TokenStep::CreateAssociatedTokenAccount { .. }
    ));
    assert!(matches!(eff.token_steps[2], TokenStep::InitializeMint { decimals: 2, .. }));
}

#[test]
fn set_exchange_rate_rejects_wrong_authority() {
    let registrar = sample_registrar();
    let data = registrar.serialize();
    // signed, but not by the stored authority
    let intruder = account(addr(77), true);
    let r = create_exchange_rate::process(
        &intruder,
        &account(addr(20), false),
        &data,
        &addr(40),
        2,
        &account(addr(41), false),
        &account(addr(42), false),
        &addr(43),
        0,
        ExchangeRateEntry { mint: addr(40), rate: 1, decimals: 0 },
        0,
    );
    assert!(matches!(r, Err(OpError::Gov(GovError::AuthorityMismatch))));
}

#[test]
fn set_exchange_rate_rejects_zero_rate() {
    let data = sample_registrar().serialize();
    let r = create_exchange_rate::process(
        &account(addr(1), true),
        &account(addr(20), false),
        &data,
        &addr(40),
        2,
        &account(addr(41), false),
        &account(addr(42), false),
        &addr(43),
        0,
        ExchangeRateEntry { mint: addr(40), rate: 0, decimals: 0 },
        0,
    );
    assert!(matches!(r, Err(OpError::Gov(GovError::InvalidRate))));
}

#[test]
fn set_exchange_rate_rejects_out_of_bounds_slot() {
    let data = sample_registrar().serialize();
    let r = create_exchange_rate::process(
        &account(addr(1), true),
        &account(addr(20), false),
        &data,
        &addr(40),
        2,
        &account(addr(41), false),
        &account(addr(42), false),
        &addr(43),
        2,
        ExchangeRateEntry { mint: addr(40), rate: 1, decimals: 0 },
        0,
    );
    assert!(matches!(r, Err(OpError::Gov(GovError::InvalidDepositId))));
}

#[test]
fn set_exchange_rate_rejects_provisioned_vault() {
    let data = sample_registrar().serialize();
    let mut vault = account(addr(41), false);
    vault.data_is_empty = false;
    let r = create_exchange_rate::process(
        &account(addr(1), true),
        &account(addr(20), false),
        &data,
        &addr(40),
        2,
        &vault,
        &account(addr(42), false),
        &addr(43),
        0,
        ExchangeRateEntry { mint: addr(40), rate: 1, decimals: 0 },
        0,
    );
    assert!(matches!(r, Err(OpError::AccountAlreadyInitialized)));
}

#[test]
fn create_voter_starts_with_all_slots_free() {
    let registrar = sample_registrar();
    let data = registrar.serialize();
    let payer = account(addr(11), true);
    let authority = account(addr(7), false);
    let registrar_address = addr(20);
    let registrar_bytes = address_to_bytes(&registrar_address);
    let authority_bytes = address_to_bytes(&addr(7));
    let (voter_address, voter_bump) =
        derive(&[registrar_bytes.as_ref(), authority_bytes.as_ref()]);
    let label = b"voter-weight-record";
    let (weight_address, weight_bump) = derive(&[
        label.as_ref(),
        registrar_bytes.as_ref(),
        authority_bytes.as_ref(),
    ]);
    let eff = create_voter::process(
        &program_id(),
        &payer,
        &authority,
        &account(registrar_address, false),
        &data,
        &account(voter_address, false),
        &account(weight_address, false),
        voter_bump,
        weight_bump,
        0,
        0,
    )
    .unwrap();
    assert_eq!(eff.voter.authority, addr(7));
    assert_eq!(eff.voter.registrar, addr(20));
    assert_eq!(eff.voter.deposits.len(), DEPOSIT_ENTRY_COUNT);
    assert!(eff.voter.deposits.iter().all(|d| !d.is_used));
    assert_eq!(eff.weight_record.realm, registrar.realm);
    assert_eq!(eff.weight_record.governing_token_mint, registrar.realm_community_mint);
    assert_eq!(eff.weight_record.governing_token_owner, addr(7));
    assert_eq!(eff.weight_record.voter_weight, 0);
}

#[test]
fn create_voter_rejects_forged_voter_address() {
    let data = sample_registrar().serialize();
    let payer = account(addr(11), true);
    let authority = account(addr(7), false);
    let r = create_voter::process(
        &program_id(),
        &payer,
        &authority,
        &account(addr(20), false),
        &data,
        &account(addr(21), false),
        &account(addr(22), false),
        9,
        10,
        0,
        0,
    );
    assert!(matches!(r, Err(OpError::InvalidSeeds)));
}

#[test]
fn create_deposit_populates_the_first_slot() {
    let s = deposit_setup();
    let now: i64 = 1_700_000_000;
    let eff = run_create_deposit(&s, &s.voter_data, 100, 2, now).unwrap();
    assert_eq!(eff.slot_idx, 0);
    assert_eq!(eff.rate_idx, 0);
    let slot = eff.voter.deposits[0];
    assert!(slot.is_used);
    assert_eq!(slot.amount_withdrawn, 0);
    assert_eq!(slot.amount_deposited, 100);
    // rate 1 at equal precision: the scaled total equals the native amount
    assert_eq!(slot.amount_scaled, 100);
    assert_eq!(slot.lockup.start_ts, now);
    assert_eq!(slot.lockup.end_ts - slot.lockup.start_ts, 2 * SECS_PER_DAY);
    assert_eq!(eff.voter_data, eff.voter.serialize());
    // escrow transfer under the depositor, then the bracket under the registrar
    assert!(matches!(
        eff.token_steps[0],
        TokenStep::Transfer { amount: 100, .. }
    ));
    assert!(matches!(eff.token_steps[1], TokenStep::Thaw { .. }));
    assert!(matches!(eff.token_steps[2], TokenStep::MintTo { amount: 100, .. }));
    assert!(matches!(eff.token_steps[3], TokenStep::Freeze { .. }));
}

#[test]
fn create_deposit_scales_through_the_rate_table() {
    let s = deposit_setup();
    let registrar = sample_registrar();
    let deposit_mint = addr(5);
    let voting_mint = derived_voting_mint(&s.registrar_account.address, &deposit_mint);
    let authority = account(addr(7), true);
    let eff = create_deposit::process(
        &program_id(),
        &authority,
        &s.registrar_account,
        &s.registrar_data,
        &s.voter_data,
        &deposit_mint,
        &voting_mint,
        &addr(30),
        &token(deposit_mint, addr(7), false),
        &addr(31),
        &token(deposit_mint, s.registrar_account.address, false),
        &addr(32),
        &Some(token(voting_mint, addr(7), false)),
        LockupKind::Daily,
        10,
        1,
        0,
    )
    .unwrap();
    assert_eq!(eff.rate_idx, 1);
    let slot = eff.voter.deposits[0];
    assert_eq!(slot.amount_deposited, 10);
    // 10 * 1_000_000 * 10^6
    assert_eq!(slot.amount_scaled, 10_000_000_000_000);
    assert_eq!(eff.realm, registrar.realm);
    assert_eq!(eff.registrar_bump, registrar.bump);
}

#[test]
fn deposits_beyond_capacity_fail_entry_full() {
    let s = deposit_setup();
    let mut voter_data = s.voter_data.clone();
    for k in 0..DEPOSIT_ENTRY_COUNT {
        let eff = run_create_deposit(&s, &voter_data, 1, 1, 0).unwrap();
        assert_eq!(eff.slot_idx as usize, k);
        voter_data = eff.voter_data;
    }
    let r = run_create_deposit(&s, &voter_data, 1, 1, 0);
    assert!(matches!(r, Err(OpError::Gov(GovError::DepositEntryFull))));
}

#[test]
fn create_deposit_rejects_unknown_asset() {
    let s = deposit_setup();
    let unknown = addr(99);
    let voting_mint = derived_voting_mint(&s.registrar_account.address, &unknown);
    let authority = account(addr(7), true);
    let r = create_deposit::process(
        &program_id(),
        &authority,
        &s.registrar_account,
        &s.registrar_data,
        &s.voter_data,
        &unknown,
        &voting_mint,
        &addr(30),
        &token(unknown, addr(7), false),
        &addr(31),
        &token(unknown, s.registrar_account.address, false),
        &addr(32),
        &Some(token(voting_mint, addr(7), false)),
        LockupKind::Cliff,
        1,
        1,
        0,
    );
    assert!(matches!(r, Err(OpError::Gov(GovError::ExchangeRateEntryNotFound))));
}

#[test]
fn create_deposit_rejects_forged_voting_mint_address() {
    let s = deposit_setup();
    let authority = account(addr(7), true);
    let forged = addr(66);
    let r = create_deposit::process(
        &program_id(),
        &authority,
        &s.registrar_account,
        &s.registrar_data,
        &s.voter_data,
        &s.deposit_mint,
        &forged,
        &addr(30),
        &token(s.deposit_mint, addr(7), false),
        &addr(31),
        &token(s.deposit_mint, s.registrar_account.address, false),
        &addr(32),
        &Some(token(forged, addr(7), false)),
        LockupKind::Cliff,
        1,
        1,
        0,
    );
    assert!(matches!(r, Err(OpError::InvalidSeeds)));
}

#[test]
fn create_deposit_rejects_wrong_vault_owner() {
    let s = deposit_setup();
    let authority = account(addr(7), true);
    let r = create_deposit::process(
        &program_id(),
        &authority,
        &s.registrar_account,
        &s.registrar_data,
        &s.voter_data,
        &s.deposit_mint,
        &s.voting_mint,
        &addr(30),
        &token(s.deposit_mint, addr(7), false),
        &addr(31),
        &token(s.deposit_mint, addr(55), false),
        &addr(32),
        &Some(token(s.voting_mint, addr(7), false)),
        LockupKind::Cliff,
        1,
        1,
        0,
    );
    assert!(matches!(r, Err(OpError::OwnerMismatch)));
}

#[test]
fn create_deposit_overflow_on_term_arithmetic() {
    let s = deposit_setup();
    let r = run_create_deposit(&s, &s.voter_data, 1, i32::MAX, i64::MAX - 1);
    assert!(matches!(r, Err(OpError::ArithmeticOverflow)));
}

fn run_update_deposit(
    s: &DepositSetup,
    voter_data: &[u8],
    signer: Address,
    registrar_address: Address,
    update_idx: u8,
    amount: u64,
) -> Result<update_deposit::UpdateDepositEffects, OpError> {
    let mut registrar_account = account(registrar_address, false);
    registrar_account.address = registrar_address;
    update_deposit::process(
        &account(signer, true),
        &registrar_account,
        &s.registrar_data,
        voter_data,
        &addr(30),
        &addr(31),
        &addr(32),
        &token(s.voting_mint, addr(7), true),
        &s.voting_mint,
        update_idx,
        amount,
    )
}

#[test]
fn update_deposit_rejects_out_of_bounds_slot() {
    let s = deposit_setup();
    for idx in [DEPOSIT_ENTRY_COUNT as u8, 11, 200, 255] {
        let r = run_update_deposit(&s, &s.voter_data, addr(7), s.registrar_account.address, idx, 1);
        assert!(matches!(r, Err(OpError::Gov(GovError::InvalidDepositId))));
    }
}

#[test]
fn update_deposit_rejects_foreign_signer() {
    let s = deposit_setup();
    let r = run_update_deposit(&s, &s.voter_data, addr(88), s.registrar_account.address, 0, 1);
    assert!(matches!(r, Err(OpError::Gov(GovError::AuthorityMismatch))));
}

#[test]
fn update_deposit_rejects_foreign_registrar() {
    let s = deposit_setup();
    let r = run_update_deposit(&s, &s.voter_data, addr(7), addr(55), 0, 1);
    assert!(matches!(r, Err(OpError::Gov(GovError::RegistrarMismatch))));
}

#[test]
fn update_deposit_accumulates_both_totals() {
    let s = deposit_setup();
    let eff = run_create_deposit(&s, &s.voter_data, 100, 2, 0).unwrap();
    let eff2 =
        run_update_deposit(&s, &eff.voter_data, addr(7), s.registrar_account.address, 0, 40)
            .unwrap();
    let slot = eff2.voter.deposits[0];
    assert_eq!(slot.amount_deposited, 140);
    assert_eq!(slot.amount_scaled, 140);
    assert_eq!(eff2.voter_data, eff2.voter.serialize());
    assert!(matches!(
        eff2.transfer_step,
        TokenStep::Transfer { amount: 40, .. }
    ));
    // the credential account is frozen at rest: thaw, mint, freeze
    assert_eq!(eff2.mint_steps.len(), 3);
    assert!(matches!(eff2.mint_steps[0], TokenStep::Thaw { .. }));
    assert!(matches!(eff2.mint_steps[1], TokenStep::MintTo { amount: 40, .. }));
    assert!(matches!(eff2.mint_steps[2], TokenStep::Freeze { .. }));
}

#[test]
fn update_deposit_overflow_is_reported() {
    let s = deposit_setup();
    let eff = run_create_deposit(&s, &s.voter_data, u64::MAX - 10, 1, 0).unwrap();
    let r = run_update_deposit(&s, &eff.voter_data, addr(7), s.registrar_account.address, 0, 11);
    assert!(matches!(r, Err(OpError::ArithmeticOverflow)));
}

#[test]
fn error_codes_follow_declaration_order() {
    let all = [
        GovError::InvalidInstruction,
        GovError::InvalidRate,
        GovError::InvalidDecimals,
        GovError::AuthorityMismatch,
        GovError::RegistrarMismatch,
        GovError::ExchangeRateEntryNotFound,
        GovError::DepositEntryFull,
        GovError::InvalidDepositId,
    ];
    for (i, e) in all.iter().enumerate() {
        assert_eq!(e.code(), i as u32);
    }
}
