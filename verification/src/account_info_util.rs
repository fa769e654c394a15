//! Planning of persistent-record creation. The host platform allocates
//! fixed-size, directly-addressed records; the engine decides what must
//! happen — which account, what size, funded by whom, signed how — and
//! returns the steps for the host to carry out in order.

use crate::address::Address;
use crate::codec::bytes_eq;
use crate::error::OpError;
use crate::pda::{derive_pda, pda_of, spec_pda_matches};
use vstd::prelude::*;

verus! {

/// What the engine reads of a host account before planning a mutation.
#[derive(Clone, Copy, Debug)]
pub struct AccountStatus {
    /// The account's address.
    pub address: Address,
    /// The account's current balance.
    pub lamports: u64,
    /// Whether the account currently holds no data.
    pub data_is_empty: bool,
    /// The program that owns the account.
    pub owner: Address,
    /// Whether this account's key signed the current request.
    pub is_signer: bool,
}

/// One storage action the host must perform. Steps that act on a derived
/// record are signed with the record's seed tuple plus its completion byte.
#[derive(Clone, Debug)]
pub enum SystemStep {
    /// Create a fresh record of `size` bytes at `account`, funded by
    /// `payer` with `lamports`, owned by `owner`.
    CreateAccount { payer: Address, account: Address, lamports: u64, size: usize, owner: Address },
    /// Move `lamports` from `from` to `to`.
    Transfer { from: Address, to: Address, lamports: u64 },
    /// Grow the record at `account` to `size` bytes.
    Allocate { account: Address, size: usize },
    /// Hand the record at `account` to the program `owner`.
    Assign { account: Address, owner: Address },
    /// Write `data` into the record at `account`.
    WriteData { account: Address, data: Vec<u8> },
}

/// A record type that may pre-allocate a fixed storage size and can be
/// read back from its stored bytes.
pub trait Acc: Sized {
    /// The fixed record size this type asks for, if any; `None` means the
    /// record is exactly as large as its serialized bytes.
    spec fn spec_max_size(&self) -> Option<usize>;

    /// Returns the fixed record size this type asks for.
    fn get_max_size(&self) -> (r: Option<usize>)
        ensures
            r == self.spec_max_size(),
    ;

    /// Whether `data` is a well-formed stored image of this record type.
    spec fn spec_stored_ok(data: Seq<u8>) -> bool;

    /// Reads a record of this type back from its stored image.
    fn try_from_bytes(data: &[u8]) -> (r: Result<Self, OpError>)
        ensures
            r is Ok <==> Self::spec_stored_ok(data@),
            r is Err ==> r == Err::<Self, OpError>(OpError::InvalidAccountData),
    ;
}

/// Validates a record supplied read-only: it must hold data, must not be
/// writable in this request, and its bytes must parse as the expected
/// record type.
pub fn assert_and_serialized_readonly<T: Acc>(
    data_is_empty: bool,
    is_writable: bool,
    data: &[u8],
) -> (r: Result<(), OpError>)
    ensures
        data_is_empty ==> r == Err::<(), OpError>(OpError::UninitializedAccount),
        !data_is_empty && is_writable ==> r == Err::<(), OpError>(OpError::InvalidAccountData),
        !data_is_empty && !is_writable && T::spec_stored_ok(data@) ==> r == Ok::<(), OpError>(()),
        !data_is_empty && !is_writable && !T::spec_stored_ok(data@) ==> r == Err::<(), OpError>(
            OpError::InvalidAccountData,
        ),
{
    if data_is_empty {
        return Err(OpError::UninitializedAccount);
    }
    if is_writable {
        return Err(OpError::InvalidAccountData);
    }
    match T::try_from_bytes(data) {
        Ok(_) => Ok(()),
        Err(e) => Err(e),
    }
}

/// The storage size a record of serialized image `data` takes under a
/// declared maximum: the maximum where one is declared, else the image's
/// own length.
pub open spec fn spec_record_size(data: Seq<u8>, max_size: Option<usize>) -> int {
    match max_size {
        Some(sz) => sz as int,
        None => data.len() as int,
    }
}

/// Plans the creation of an ordinary (underived) record: the target must be
/// empty and already owned by the program, and the plan is one creation
/// step followed by one write of the record image.
pub fn create_and_serialize_account(
    account: &AccountStatus,
    data: &Vec<u8>,
    max_size: Option<usize>,
    payer: &Address,
    program_id: &Address,
    minimum_balance: u64,
) -> (r: Result<Vec<SystemStep>, OpError>)
    ensures
        !(account.data_is_empty && account.owner == *program_id) ==> r == Err::<
            Vec<SystemStep>,
            OpError,
        >(OpError::AccountAlreadyInitialized),
        account.data_is_empty && account.owner == *program_id ==> (r matches Ok(steps)
            && steps@.len() == 2 && steps@[0] == (SystemStep::CreateAccount {
            payer: *payer,
            account: account.address,
            lamports: minimum_balance,
            size: spec_record_size(data@, max_size) as usize,
            owner: *program_id,
        }) && (steps@[1] matches SystemStep::WriteData { account: a, data: d } && a
            == account.address && d@ == data@)),
{
    if !(account.data_is_empty && account.owner == *program_id) {
        return Err(OpError::AccountAlreadyInitialized);
    }
    let size: usize = match max_size {
        Some(sz) => sz,
        None => data.len(),
    };
    let mut steps: Vec<SystemStep> = Vec::new();
    steps.push(
        SystemStep::CreateAccount {
            payer: *payer,
            account: account.address,
            lamports: minimum_balance,
            size,
            owner: *program_id,
        },
    );
    steps.push(SystemStep::WriteData { account: account.address, data: clone_bytes(data) });
    Ok(steps)
}

/// Copies a record image.
fn clone_bytes(data: &Vec<u8>) -> (r: Vec<u8>)
    ensures
        r@ == data@,
{
    let mut r: Vec<u8> = Vec::new();
    r.extend_from_slice(data.as_slice());
    r
}

/// Plans the creation of a derived record, to be signed with the record's
/// own seeds. The target address must equal the address the seed tuple
/// derives, and a caller-supplied completion byte must equal the derived
/// one, else nothing is planned. A target that already carries a balance
/// is upgraded in place — topped up to the rent minimum where short, then
/// grown and assigned — rather than created; either path ends by writing
/// the record image.
pub fn create_and_serialize_account_signed(
    account: &AccountStatus,
    data: &Vec<u8>,
    max_size: Option<usize>,
    payer: &Address,
    owner: &Address,
    seeds: &Vec<Vec<u8>>,
    bump: Option<u8>,
    minimum_balance: u64,
) -> (r: Result<(Vec<SystemStep>, u8), OpError>)
    ensures
        ({
            let seeds_view = seeds@.map_values(|v: Vec<u8>| v@);
            let derived = pda_of(seeds_view, owner.spec_bytes());
            let matched = spec_pda_matches(seeds_view, owner.spec_bytes(), account.address);
            &&& !matched ==> r == Err::<(Vec<SystemStep>, u8), OpError>(OpError::InvalidSeeds)
            &&& matched ==> match bump {
                Some(b) => if b == derived.unwrap().1 {
                    r is Ok
                } else {
                    r == Err::<(Vec<SystemStep>, u8), OpError>(OpError::InvalidSeeds)
                },
                None => r is Ok,
            }
            &&& r is Err ==> r == Err::<(Vec<SystemStep>, u8), OpError>(OpError::InvalidSeeds)
            &&& r matches Ok(p) ==> {
                let steps = p.0;
                &&& derived matches Some(d) && d.0 == account.address.spec_bytes() && p.1 == d.1
                &&& steps@.len() >= 2
                &&& (steps@.last() matches SystemStep::WriteData { account: a, data: d } && a
                    == account.address && d@ == data@)
                &&& account.lamports == 0 ==> steps@.len() == 2 && steps@[0]
                    == (SystemStep::CreateAccount {
                    payer: *payer,
                    account: account.address,
                    lamports: minimum_balance,
                    size: spec_record_size(data@, max_size) as usize,
                    owner: *owner,
                })
                &&& account.lamports > 0 ==> {
                    let top_up = if minimum_balance >= 1 {
                        minimum_balance as int - account.lamports
                    } else {
                        1 - account.lamports
                    };
                    let shortfall = if top_up > 0 {
                        1int
                    } else {
                        0int
                    };
                    &&& steps@.len() == 3 + shortfall
                    &&& top_up > 0 ==> steps@[0] == (SystemStep::Transfer {
                        from: *payer,
                        to: account.address,
                        lamports: top_up as u64,
                    })
                    &&& steps@[shortfall] == (SystemStep::Allocate {
                        account: account.address,
                        size: spec_record_size(data@, max_size) as usize,
                    })
                    &&& steps@[shortfall + 1] == (SystemStep::Assign {
                        account: account.address,
                        owner: *owner,
                    })
                }
            }
        }),
{
    let bump_val: u8 = match derive_pda(seeds, owner) {
        Some((derived, b)) => {
            let expected = account.address.to_bytes();
            if !bytes_eq(derived.as_slice(), expected.as_slice()) {
                return Err(OpError::InvalidSeeds);
            }
            b
        },
        None => {
            return Err(OpError::InvalidSeeds);
        },
    };
    if let Some(b) = bump {
        if b != bump_val {
            return Err(OpError::InvalidSeeds);
        }
    }
    let size: usize = match max_size {
        Some(sz) => sz,
        None => data.len(),
    };
    let mut steps: Vec<SystemStep> = Vec::new();
    if account.lamports > 0 {
        let min_lamports: u64 = if minimum_balance >= 1 {
            minimum_balance
        } else {
            1
        };
        if min_lamports > account.lamports {
            let top_up = min_lamports - account.lamports;
            steps.push(
                SystemStep::Transfer { from: *payer, to: account.address, lamports: top_up },
            );
        }
        steps.push(SystemStep::Allocate { account: account.address, size });
        steps.push(SystemStep::Assign { account: account.address, owner: *owner });
    } else {
        steps.push(
            SystemStep::CreateAccount {
                payer: *payer,
                account: account.address,
                lamports: minimum_balance,
                size,
                owner: *owner,
            },
        );
    }
    steps.push(SystemStep::WriteData { account: account.address, data: clone_bytes(data) });
    Ok((steps, bump_val))
}

} // verus!
