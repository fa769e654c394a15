use voting_registrar::pda::verify_pda;
use voting_registrar::state::{DepositEntry, Lockup, LockupKind, SECS_PER_DAY};
use voting_registrar::{Address, OpError};

fn addr(tag: u8) -> Address {
    Address { w0: tag as u64, w1: 5, w2: 6, w3: 7 }
}

fn address_from_bytes(bytes: &[u8; 32]) -> Address {
    let word = |i: usize| {
        let mut w = [0u8; 8];
        w.copy_from_slice(&bytes[i * 8..i * 8 + 8]);
        u64::from_le_bytes(w)
    };
    Address { w0: word(0), w1: word(1), w2: word(2), w3: word(3) }
}

fn address_to_bytes(a: &Address) -> [u8; 32] {
    let mut out = [0u8; 32];
    out[0..8].copy_from_slice(&a.w0.to_le_bytes());
    out[8..16].copy_from_slice(&a.w1.to_le_bytes());
    out[16..24].copy_from_slice(&a.w2.to_le_bytes());
    out[24..32].copy_from_slice(&a.w3.to_le_bytes());
    out
}

fn deposit(kind: LockupKind, amount: u64, start_ts: i64, end_ts: i64) -> DepositEntry {
    DepositEntry {
        is_used: true,
        rate_idx: 0,
        amount_deposited: amount,
        amount_withdrawn: 0,
        amount_scaled: amount,
        lockup: Lockup { kind, start_ts, end_ts, padding_lo: 0, padding_hi: 0 },
    }
}

#[test]
fn cliff_weight_is_full_until_the_end() {
    let d = deposit(LockupKind::Cliff, 500, 0, 100 * SECS_PER_DAY);
    assert_eq!(d.current_weight(0), Ok(500));
    assert_eq!(d.current_weight(100 * SECS_PER_DAY - 1), Ok(500));
    assert_eq!(d.current_weight(100 * SECS_PER_DAY), Ok(0));
    assert_eq!(d.current_weight(i64::MAX), Ok(0));
}

#[test]
fn daily_weight_decays_linearly() {
    // locked for the full maximum term of 1095 days
    let d = deposit(LockupKind::Daily, 1095, 0, 1095 * SECS_PER_DAY);
    assert_eq!(d.current_weight(0), Ok(1095));
    // half the term gone: half the days remain
    assert_eq!(d.current_weight(548 * SECS_PER_DAY), Ok(547));
    // one day left
    assert_eq!(d.current_weight(1094 * SECS_PER_DAY), Ok(1));
    // expired: weight floors at zero
    assert_eq!(d.current_weight(1095 * SECS_PER_DAY), Ok(0));
    assert_eq!(d.current_weight(2000 * SECS_PER_DAY), Ok(0));
}

#[test]
fn daily_weight_rounds_down_partial_days() {
    let d = deposit(LockupKind::Daily, 1095, 0, 2 * SECS_PER_DAY);
    // one and a half days left still counts as one day
    assert_eq!(d.current_weight(SECS_PER_DAY / 2), Ok(1));
    assert_eq!(d.current_weight(SECS_PER_DAY), Ok(1));
    assert_eq!(d.current_weight(SECS_PER_DAY + 1), Ok(0));
}

#[test]
fn derived_addresses_verify_and_forgeries_fail() {
    let program = addr(100);
    let seed_owner = addr(50);
    let pid = solana_program::pubkey::Pubkey::new_from_array(address_to_bytes(&program));
    let seed_bytes = address_to_bytes(&seed_owner);
    let seeds_ref: [&[u8]; 1] = [seed_bytes.as_ref()];
    let (pda, _bump) = solana_program::pubkey::Pubkey::find_program_address(&seeds_ref, &pid);
    let derived = address_from_bytes(&pda.to_bytes());

    let seeds = vec![seed_bytes.to_vec()];
    assert_eq!(verify_pda(&seeds, &program, &derived), Ok(()));
    // the seed itself is not the derived address
    assert_eq!(verify_pda(&seeds, &program, &seed_owner), Err(OpError::InvalidSeeds));
    // a different seed tuple derives elsewhere
    let other = vec![address_to_bytes(&addr(51)).to_vec()];
    assert_eq!(verify_pda(&other, &program, &derived), Err(OpError::InvalidSeeds));
}
