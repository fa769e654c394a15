//! Persistent record types: the registrar with its exchange-rate table, the
//! voter with its bounded deposit slots, and the lockup vesting model.

mod deposit_entry;
mod exchange_rate_entry;
mod lockup;
mod registrar;
mod voter;

pub use deposit_entry::{
    lemma_deposit_entry_round_trip, lemma_update_preserves_occupancy, spec_update_deposit,
    DepositEntry, DEPOSIT_ENTRY_LEN,
};
pub use exchange_rate_entry::{
    lemma_exchange_rate_entry_round_trip, ExchangeRateEntry, EXCHANGE_RATE_ENTRY_LEN,
};
pub use lockup::{
    lemma_lockup_round_trip, Lockup, LockupKind, LOCKUP_LEN, MAX_DAYS_LOCKED, SECS_PER_DAY,
};
pub use registrar::{
    lemma_registrar_round_trip, pow10, spec_first_rate_match, spec_table_from_bytes, Registrar,
    RATE_ENTRY_COUNT, REGISTRAR_LEN,
};
pub use voter::{spec_voter_weight_record_label, voter_weight_record_label};
pub use voter::{
    lemma_full_array_has_no_free_slot, lemma_voter_round_trip, spec_deposits_from_bytes, spec_deposits_ok, spec_first_free_slot,
    Voter, VoterWeightRecord, DEPOSIT_ENTRY_COUNT, VOTER_LEN, VOTER_WEIGHT_RECORD_LEN,
};
