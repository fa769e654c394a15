//! The operation set and its wire encoding: a one-byte tag naming the
//! operation, followed by its fixed positional fields.

use crate::codec::{
    read_i32, read_u16, read_u64, read_u8, spec_i32_to_le_bytes, spec_u32_as_i32,
    write_i32, write_u16, write_u64, write_u8,
};
use crate::error::GovError;
use crate::state::{ExchangeRateEntry, LockupKind};
use vstd::bytes::{spec_u16_from_le_bytes, spec_u16_to_le_bytes, spec_u32_from_le_bytes,
    spec_u64_from_le_bytes, spec_u64_to_le_bytes};
use vstd::prelude::*;

verus! {

/// One dispatched command: which operation to run and its fixed fields.
/// The records each operation touches travel beside the command, named by
/// address in a fixed order.
#[derive(Clone, Copy, Debug, PartialEq, Eq, Structural)]
pub enum GovInstruction {
    /// Create a new voting registrar; a realm has a single registrar.
    CreateRegistrar { rate_decimals: u8, registrar_bump: u8 },
    /// Configure the exchange rate of one asset, provisioning its escrow
    /// vault and credential mint.
    CreateExchangeRate { voting_mint_bump: u8, idx: u16, er: ExchangeRateEntry },
    /// Create a depositor's voter record and its empty weight record.
    CreateVoter { voter_bump: u8, voter_weight_record_bump: u8 },
    /// Allocate a deposit slot and record a first amount against it.
    CreateDeposit { kind: LockupKind, amount: u64, days: i32 },
    /// Record a further amount against an existing deposit slot.
    UpdateDeposit { update_idx: u8, amount: u64 },
}

impl GovInstruction {
    /// The wire image of this command: a tag byte in declaration order,
    /// then the fields in order, each in its record byte form.
    pub open spec fn spec_bytes(&self) -> Seq<u8> {
        match self {
            GovInstruction::CreateRegistrar { rate_decimals, registrar_bump } => seq![
                0u8,
                *rate_decimals,
                *registrar_bump,
            ],
            GovInstruction::CreateExchangeRate { voting_mint_bump, idx, er } => seq![
                1u8,
                *voting_mint_bump,
            ] + spec_u16_to_le_bytes(*idx) + er.spec_bytes(),
            GovInstruction::CreateVoter { voter_bump, voter_weight_record_bump } => seq![
                2u8,
                *voter_bump,
                *voter_weight_record_bump,
            ],
            GovInstruction::CreateDeposit { kind, amount, days } => seq![3u8, kind.spec_byte()]
                + spec_u64_to_le_bytes(*amount) + spec_i32_to_le_bytes(*days),
            GovInstruction::UpdateDeposit { update_idx, amount } => seq![4u8, *update_idx]
                + spec_u64_to_le_bytes(*amount),
        }
    }

    /// The command stored in the wire image `s`, if `s` is exactly one
    /// well-formed command.
    pub open spec fn spec_from_bytes(s: Seq<u8>) -> Option<GovInstruction> {
        if s.len() == 0 {
            None
        } else if s[0] == 0 {
            if s.len() == 3 {
                Some(GovInstruction::CreateRegistrar { rate_decimals: s[1], registrar_bump: s[2] })
            } else {
                None
            }
        } else if s[0] == 1 {
            if s.len() == 45 {
                Some(
                    GovInstruction::CreateExchangeRate {
                        voting_mint_bump: s[1],
                        idx: spec_u16_from_le_bytes(s.subrange(2, 4)),
                        er: ExchangeRateEntry::spec_from_bytes(s.subrange(4, 45)),
                    },
                )
            } else {
                None
            }
        } else if s[0] == 2 {
            if s.len() == 3 {
                Some(
                    GovInstruction::CreateVoter {
                        voter_bump: s[1],
                        voter_weight_record_bump: s[2],
                    },
                )
            } else {
                None
            }
        } else if s[0] == 3 {
            if s.len() == 14 {
                match LockupKind::spec_from_byte(s[1]) {
                    Some(kind) => Some(
                        GovInstruction::CreateDeposit {
                            kind,
                            amount: spec_u64_from_le_bytes(s.subrange(2, 10)),
                            days: spec_u32_as_i32(spec_u32_from_le_bytes(s.subrange(10, 14))),
                        },
                    ),
                    None => None,
                }
            } else {
                None
            }
        } else if s[0] == 4 {
            if s.len() == 10 {
                Some(
                    GovInstruction::UpdateDeposit {
                        update_idx: s[1],
                        amount: spec_u64_from_le_bytes(s.subrange(2, 10)),
                    },
                )
            } else {
                None
            }
        } else {
            None
        }
    }

    /// Builds the wire image of this command.
    pub fn pack(&self) -> (r: Vec<u8>)
        ensures
            r@ == self.spec_bytes(),
    {
        let mut out: Vec<u8> = Vec::new();
        match self {
            GovInstruction::CreateRegistrar { rate_decimals, registrar_bump } => {
                write_u8(&mut out, 0);
                write_u8(&mut out, *rate_decimals);
                write_u8(&mut out, *registrar_bump);
            },
            GovInstruction::CreateExchangeRate { voting_mint_bump, idx, er } => {
                write_u8(&mut out, 1);
                write_u8(&mut out, *voting_mint_bump);
                write_u16(&mut out, *idx);
                er.write_into(&mut out);
            },
            GovInstruction::CreateVoter { voter_bump, voter_weight_record_bump } => {
                write_u8(&mut out, 2);
                write_u8(&mut out, *voter_bump);
                write_u8(&mut out, *voter_weight_record_bump);
            },
            GovInstruction::CreateDeposit { kind, amount, days } => {
                write_u8(&mut out, 3);
                let tag: u8 = match kind {
                    LockupKind::Daily => 0,
                    LockupKind::Cliff => 1,
                };
                write_u8(&mut out, tag);
                write_u64(&mut out, *amount);
                write_i32(&mut out, *days);
            },
            GovInstruction::UpdateDeposit { update_idx, amount } => {
                write_u8(&mut out, 4);
                write_u8(&mut out, *update_idx);
                write_u64(&mut out, *amount);
            },
        }
        assert(out@ =~= self.spec_bytes());
        out
    }

    /// Decodes one command from its wire image; any other byte string is
    /// rejected as an invalid instruction.
    pub fn unpack(input: &[u8]) -> (r: Result<GovInstruction, GovError>)
        ensures
            GovInstruction::spec_from_bytes(input@) matches Some(ix) ==> r == Ok::<
                GovInstruction,
                GovError,
            >(ix),
            GovInstruction::spec_from_bytes(input@) is None ==> r == Err::<
                GovInstruction,
                GovError,
            >(GovError::InvalidInstruction),
    {
        let n = input.len();
        if n == 0 {
            return Err(GovError::InvalidInstruction);
        }
        let tag = read_u8(input, 0);
        if tag == 0 {
            if n != 3 {
                return Err(GovError::InvalidInstruction);
            }
            let rate_decimals = read_u8(input, 1);
            let registrar_bump = read_u8(input, 2);
            Ok(GovInstruction::CreateRegistrar { rate_decimals, registrar_bump })
        } else if tag == 1 {
            if n != 45 {
                return Err(GovError::InvalidInstruction);
            }
            let voting_mint_bump = read_u8(input, 1);
            let idx = read_u16(input, 2);
            let er = ExchangeRateEntry::read_from(input, 4);
            Ok(GovInstruction::CreateExchangeRate { voting_mint_bump, idx, er })
        } else if tag == 2 {
            if n != 3 {
                return Err(GovError::InvalidInstruction);
            }
            let voter_bump = read_u8(input, 1);
            let voter_weight_record_bump = read_u8(input, 2);
            Ok(GovInstruction::CreateVoter { voter_bump, voter_weight_record_bump })
        } else if tag == 3 {
            if n != 14 {
                return Err(GovError::InvalidInstruction);
            }
            let kind_byte = read_u8(input, 1);
            let kind = if kind_byte == 0 {
                LockupKind::Daily
            } else if kind_byte == 1 {
                LockupKind::Cliff
            } else {
                return Err(GovError::InvalidInstruction);
            };
            let amount = read_u64(input, 2);
            let days = read_i32(input, 10);
            Ok(GovInstruction::CreateDeposit { kind, amount, days })
        } else if tag == 4 {
            if n != 10 {
                return Err(GovError::InvalidInstruction);
            }
            let update_idx = read_u8(input, 1);
            let amount = read_u64(input, 2);
            Ok(GovInstruction::UpdateDeposit { update_idx, amount })
        } else {
            Err(GovError::InvalidInstruction)
        }
    }
}

/// Decoding inverts encoding for commands.
pub proof fn lemma_instruction_round_trip(ix: GovInstruction)
    ensures
        GovInstruction::spec_from_bytes(ix.spec_bytes()) == Some(ix),
{
    vstd::bytes::lemma_auto_spec_u64_to_from_le_bytes();
    vstd::bytes::lemma_auto_spec_u16_to_from_le_bytes();
    vstd::bytes::lemma_auto_spec_u32_to_from_le_bytes();
    let s = ix.spec_bytes();
    match ix {
        GovInstruction::CreateRegistrar { .. } => {},
        GovInstruction::CreateExchangeRate { voting_mint_bump, idx, er } => {
            assert(s.subrange(2, 4) =~= spec_u16_to_le_bytes(idx));
            assert(s.subrange(4, 45) =~= er.spec_bytes());
            crate::state::lemma_exchange_rate_entry_round_trip(er);
        },
        GovInstruction::CreateVoter { .. } => {},
        GovInstruction::CreateDeposit { kind, amount, days } => {
            assert(s.subrange(2, 10) =~= spec_u64_to_le_bytes(amount));
            assert(s.subrange(10, 14) =~= spec_i32_to_le_bytes(days));
            crate::codec::lemma_i32_u32_round_trip(days);
        },
        GovInstruction::UpdateDeposit { update_idx, amount } => {
            assert(s.subrange(2, 10) =~= spec_u64_to_le_bytes(amount));
        },
    }
}

} // verus!
