//! The operation layer: one module per dispatched command. Each operation
//! validates authorization and addressing, computes the records' new
//! contents, and returns the storage and custody steps the host must
//! perform, in order, within one atomic request.

pub mod create_deposit;
pub mod create_exchange_rate;
pub mod create_registrar;
pub mod create_voter;
pub mod update_deposit;

pub use create_deposit::{
    lemma_allocation_monotone, process as process_create_deposit, spec_stamped_slot,
    spec_token_gate, CreateDepositEffects,
};
pub use create_exchange_rate::{process as process_create_exchange_rate, CreateExchangeRateEffects};
pub use create_registrar::process as process_create_registrar;
pub use create_voter::{process as process_create_voter, CreateVoterEffects};
pub use update_deposit::{process as process_update_deposit, UpdateDepositEffects};
