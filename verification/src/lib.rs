//! A voting-escrow registrar: depositors lock supported assets for a chosen
//! duration and receive a non-transferable voting credential derived from the
//! deposited amount, a per-asset exchange rate, and the lockup schedule.
//!
//! This crate is the state, accounting and authorization engine: the
//! registrar's exchange-rate table, the per-voter bounded set of deposit
//! records, the lockup vesting model, the fixed-point conversion arithmetic,
//! and the checks that gate every mutation. Platform work (account storage,
//! token custody, instruction transport) is described as data: the operations
//! return the steps the host must carry out, and the host executes them.

pub mod account_info_util;
pub mod address;
pub mod codec;
pub mod error;
pub mod instruction;
pub mod oracle;
pub mod pda;
pub mod processor;
pub mod spl_token_util;
pub mod state;

pub use address::Address;
pub use error::{GovError, OpError};
pub use instruction::GovInstruction;
