//! The error taxonomy: domain errors raised by the core, and the
//! platform-boundary failures that the operations surface as-is.

use vstd::prelude::*;

verus! {

/// Domain-specific failures raised by the registrar core.
#[derive(Clone, Copy, Debug, PartialEq, Eq, Structural)]
pub enum GovError {
    /// Malformed or unrecognized operation encoding.
    InvalidInstruction,
    /// A supplied exchange rate is not strictly positive.
    InvalidRate,
    /// Registrar precision is lower than an asset's native precision.
    InvalidDecimals,
    /// Signer does not match the record's stored authority.
    AuthorityMismatch,
    /// A voter's stored registrar reference does not match the one supplied.
    RegistrarMismatch,
    /// No configured rate entry for the asset being deposited.
    ExchangeRateEntryNotFound,
    /// The voter's bounded deposit array has no free slot.
    DepositEntryFull,
    /// An update targets a slot index outside the array's bounds.
    InvalidDepositId,
}

impl GovError {
    /// The numeric code a host platform reports for this error, in
    /// declaration order starting at zero.
    pub fn code(&self) -> (c: u32)
        ensures
            c == self.spec_code(),
    {
        match self {
            GovError::InvalidInstruction => 0,
            GovError::InvalidRate => 1,
            GovError::InvalidDecimals => 2,
            GovError::AuthorityMismatch => 3,
            GovError::RegistrarMismatch => 4,
            GovError::ExchangeRateEntryNotFound => 5,
            GovError::DepositEntryFull => 6,
            GovError::InvalidDepositId => 7,
        }
    }

    pub open spec fn spec_code(&self) -> u32 {
        match self {
            GovError::InvalidInstruction => 0,
            GovError::InvalidRate => 1,
            GovError::InvalidDecimals => 2,
            GovError::AuthorityMismatch => 3,
            GovError::RegistrarMismatch => 4,
            GovError::ExchangeRateEntryNotFound => 5,
            GovError::DepositEntryFull => 6,
            GovError::InvalidDepositId => 7,
        }
    }
}

/// Every failure an operation can return: a domain error, or one of the
/// platform-boundary failures surfaced from the host's collaborators.
#[derive(Clone, Copy, Debug, PartialEq, Eq, Structural)]
pub enum OpError {
    /// A domain error from the registrar core.
    Gov(GovError),
    /// The operation's declared authority is not a verified signer.
    MissingRequiredSignature,
    /// A record to be created is already populated.
    AccountAlreadyInitialized,
    /// A record that should exist holds no data.
    UninitializedAccount,
    /// A record's bytes are not a well-formed record image.
    InvalidAccountData,
    /// A caller-supplied address does not match its derivation.
    InvalidSeeds,
    /// A checked arithmetic step would overflow.
    ArithmeticOverflow,
    /// A token account's mint does not match the asset supplied.
    MintMismatch,
    /// A token account's owner does not match the record supplied.
    OwnerMismatch,
}

impl core::convert::From<GovError> for OpError {
    fn from(e: GovError) -> (r: OpError) {
        OpError::Gov(e)
    }
}

impl vstd::std_specs::convert::FromSpecImpl<GovError> for OpError {
    open spec fn obeys_from_spec() -> bool {
        true
    }

    open spec fn from_spec(e: GovError) -> OpError {
        OpError::Gov(e)
    }
}

} // verus!
