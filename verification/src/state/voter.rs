//! The per-depositor record: its authority, its back-reference to the
//! owning registrar, and the bounded array of deposit slots.

use crate::address::Address;
use crate::codec::{read_u8, write_address, write_u8};
use crate::error::{GovError, OpError};
use crate::state::deposit_entry::DepositEntry;
use vstd::prelude::*;

verus! {

/// Number of deposit slots in a voter record.
pub const DEPOSIT_ENTRY_COUNT: usize = 10;

/// Size in bytes of a voter's record image.
pub const VOTER_LEN: usize = 66 + 59 * DEPOSIT_ENTRY_COUNT;

/// One depositor's record under a registrar.
#[derive(Clone, Debug)]
pub struct Voter {
    /// Identity key permitted to mutate this record.
    pub authority: Address,
    /// The registrar this voter was created under.
    pub registrar: Address,
    /// Completion byte of this record's address derivation.
    pub voter_bump: u8,
    /// Completion byte of the weight record's address derivation.
    pub voter_weight_record_bump: u8,
    /// Bookkeeping records of individual deposits.
    pub deposits: Vec<DepositEntry>,
}

/// The concatenated record images of a deposit array, in slot order.
pub open spec fn spec_deposits_bytes(es: Seq<DepositEntry>) -> Seq<u8>
    decreases es.len(),
{
    if es.len() == 0 {
        Seq::empty()
    } else {
        spec_deposits_bytes(es.drop_last()) + es.last().spec_bytes()
    }
}

/// A serialized deposit array is 59 bytes per slot.
pub proof fn lemma_deposits_bytes_len(es: Seq<DepositEntry>)
    ensures
        spec_deposits_bytes(es).len() == 59 * es.len(),
    decreases es.len(),
{
    if es.len() > 0 {
        lemma_deposits_bytes_len(es.drop_last());
        crate::state::deposit_entry::lemma_deposit_entry_round_trip(es.last());
    }
}

/// Each slot's image sits at its own 59-byte window of the array image.
pub proof fn lemma_deposits_bytes_index(es: Seq<DepositEntry>, k: int)
    requires
        0 <= k < es.len(),
    ensures
        spec_deposits_bytes(es).subrange(59 * k, 59 * k + 59) == es[k].spec_bytes(),
    decreases es.len(),
{
    lemma_deposits_bytes_len(es);
    lemma_deposits_bytes_len(es.drop_last());
    crate::state::deposit_entry::lemma_deposit_entry_round_trip(es.last());
    if k == es.len() - 1 {
        assert(spec_deposits_bytes(es).subrange(59 * k, 59 * k + 59) =~= es.last().spec_bytes());
    } else {
        lemma_deposits_bytes_index(es.drop_last(), k);
        assert(spec_deposits_bytes(es).subrange(59 * k, 59 * k + 59) =~= spec_deposits_bytes(
            es.drop_last(),
        ).subrange(59 * k, 59 * k + 59));
    }
}

/// Every 59-byte window of `s` holds a valid deposit-entry image.
pub open spec fn spec_deposits_ok(s: Seq<u8>, n: nat) -> bool {
    forall|k: int|
        0 <= k < n ==> DepositEntry::spec_from_bytes(
            #[trigger] s.subrange(59 * k, 59 * k + 59),
        ) is Some
}

/// The deposit array read back from `s`: one entry per 59-byte window.
pub open spec fn spec_deposits_from_bytes(s: Seq<u8>, n: nat) -> Seq<DepositEntry> {
    Seq::new(
        n,
        |k: int| DepositEntry::spec_from_bytes(s.subrange(59 * k, 59 * k + 59)).unwrap(),
    )
}

/// Decoding inverts encoding for whole deposit arrays.
pub proof fn lemma_deposits_round_trip(es: Seq<DepositEntry>)
    ensures
        spec_deposits_ok(spec_deposits_bytes(es), es.len()),
        spec_deposits_from_bytes(spec_deposits_bytes(es), es.len()) == es,
{
    lemma_deposits_bytes_len(es);
    assert forall|k: int| 0 <= k < es.len() implies DepositEntry::spec_from_bytes(
        #[trigger] spec_deposits_bytes(es).subrange(59 * k, 59 * k + 59),
    ) == Some(es[k]) by {
        lemma_deposits_bytes_index(es, k);
        crate::state::deposit_entry::lemma_deposit_entry_round_trip(es[k]);
    }
    assert(spec_deposits_from_bytes(spec_deposits_bytes(es), es.len()) =~= es);
}

impl Voter {
    /// A voter record is well formed when its deposit array has exactly the
    /// configured number of slots.
    pub open spec fn wf(&self) -> bool {
        self.deposits@.len() == DEPOSIT_ENTRY_COUNT
    }

    /// The record image: both keys, the two address completion bytes, then
    /// the deposit array.
    pub open spec fn spec_bytes(&self) -> Seq<u8> {
        self.authority.spec_bytes() + self.registrar.spec_bytes() + seq![self.voter_bump]
            + seq![self.voter_weight_record_bump] + spec_deposits_bytes(self.deposits@)
    }

    /// Two voter records that differ at most in their deposit arrays.
    pub open spec fn spec_same_but_deposits(a: Voter, b: Voter) -> bool {
        &&& a.authority == b.authority
        &&& a.registrar == b.registrar
        &&& a.voter_bump == b.voter_bump
        &&& a.voter_weight_record_bump == b.voter_weight_record_bump
    }

    /// This voter is exactly what the record image `s` stores.
    pub open spec fn matches_bytes(&self, s: Seq<u8>) -> bool {
        &&& s.len() == VOTER_LEN
        &&& self.authority == Address::spec_from_bytes(s.subrange(0, 32))
        &&& self.registrar == Address::spec_from_bytes(s.subrange(32, 64))
        &&& self.voter_bump == s[64]
        &&& self.voter_weight_record_bump == s[65]
        &&& spec_deposits_ok(
            s.subrange(66, 66 + 59 * DEPOSIT_ENTRY_COUNT),
            DEPOSIT_ENTRY_COUNT as nat,
        )
        &&& self.deposits@ == spec_deposits_from_bytes(
            s.subrange(66, 66 + 59 * DEPOSIT_ENTRY_COUNT),
            DEPOSIT_ENTRY_COUNT as nat,
        )
    }

    /// Builds the record image of this voter.
    pub fn serialize(&self) -> (r: Vec<u8>)
        requires
            self.wf(),
        ensures
            r@ == self.spec_bytes(),
            r@.len() == VOTER_LEN,
    {
        let mut out: Vec<u8> = Vec::new();
        write_address(&mut out, &self.authority);
        write_address(&mut out, &self.registrar);
        write_u8(&mut out, self.voter_bump);
        write_u8(&mut out, self.voter_weight_record_bump);
        let ghost mid = out@;
        assert(mid + spec_deposits_bytes(self.deposits@.take(0)) =~= mid);
        let mut k: usize = 0;
        while k < self.deposits.len()
            invariant
                self.wf(),
                k <= self.deposits@.len(),
                out@ == mid + spec_deposits_bytes(self.deposits@.take(k as int)),
            decreases self.deposits@.len() - k,
        {
            self.deposits[k].write_into(&mut out);
            proof {
                assert(self.deposits@.take(k + 1).drop_last() =~= self.deposits@.take(k as int));
                assert(spec_deposits_bytes(self.deposits@.take(k + 1)) == spec_deposits_bytes(
                    self.deposits@.take(k as int),
                ) + self.deposits@[k as int].spec_bytes());
            }
            k = k + 1;
        }
        assert(self.deposits@.take(self.deposits@.len() as int) =~= self.deposits@);
        proof {
            lemma_deposits_bytes_len(self.deposits@);
            assert(out@ =~= self.spec_bytes());
        }
        out
    }

    /// Reads a voter back from its record image: succeeds exactly on images
    /// of the record's size whose slots all decode, and returns the stored
    /// record.
    pub fn try_from_slice(data: &[u8]) -> (r: Result<Voter, OpError>)
        ensures
            data@.len() == VOTER_LEN && spec_deposits_ok(
                data@.subrange(66, 66 + 59 * DEPOSIT_ENTRY_COUNT),
                DEPOSIT_ENTRY_COUNT as nat,
            ) ==> (r matches Ok(v) && v.matches_bytes(data@) && v.wf()),
            data@.len() != VOTER_LEN || !spec_deposits_ok(
                data@.subrange(66, 66 + 59 * DEPOSIT_ENTRY_COUNT),
                DEPOSIT_ENTRY_COUNT as nat,
            ) ==> r == Err::<Voter, OpError>(OpError::InvalidAccountData),
    {
        if data.len() != VOTER_LEN {
            return Err(OpError::InvalidAccountData);
        }
        let authority = Address::read_from(data, 0);
        let registrar = Address::read_from(data, 32);
        let voter_bump = read_u8(data, 64);
        let voter_weight_record_bump = read_u8(data, 65);
        let mut deposits: Vec<DepositEntry> = Vec::new();
        let ghost arr = data@.subrange(66, 66 + 59 * DEPOSIT_ENTRY_COUNT);
        let mut k: usize = 0;
        while k < DEPOSIT_ENTRY_COUNT
            invariant
                k <= DEPOSIT_ENTRY_COUNT,
                data@.len() == VOTER_LEN,
                arr == data@.subrange(66, 66 + 59 * DEPOSIT_ENTRY_COUNT),
                deposits@.len() == k,
                forall|j: int|
                    0 <= j < k ==> DepositEntry::spec_from_bytes(
                        #[trigger] arr.subrange(59 * j, 59 * j + 59),
                    ) == Some(deposits@[j]),
            decreases DEPOSIT_ENTRY_COUNT - k,
        {
            let e_opt = DepositEntry::read_from(data, 66 + 59 * k);
            proof {
                assert(data@.subrange(66 + 59 * k, 66 + 59 * k + 59) =~= arr.subrange(
                    59 * k,
                    59 * k + 59,
                ));
            }
            let e = match e_opt {
                Some(e) => e,
                None => {
                    return Err(OpError::InvalidAccountData);
                },
            };
            deposits.push(e);
            k = k + 1;
        }
        let v = Voter { authority, registrar, voter_bump, voter_weight_record_bump, deposits };
        proof {
            assert(v.deposits@ =~= spec_deposits_from_bytes(arr, DEPOSIT_ENTRY_COUNT as nat));
        }
        Ok(v)
    }

    /// The mutation gate: the supplied registrar must be the one this record
    /// was created under, and the caller must be the record's stored
    /// authority. Checked in that order.
    pub fn assert_voter(&self, authority: &Address, registrar: &Address) -> (r: Result<
        (),
        OpError,
    >)
        ensures
            self.registrar != *registrar ==> r == Err::<(), OpError>(
                OpError::Gov(GovError::RegistrarMismatch),
            ),
            self.registrar == *registrar && self.authority != *authority ==> r == Err::<
                (),
                OpError,
            >(OpError::Gov(GovError::AuthorityMismatch)),
            self.registrar == *registrar && self.authority == *authority ==> r == Ok::<
                (),
                OpError,
            >(()),
    {
        if self.registrar != *registrar {
            return Err(OpError::Gov(GovError::RegistrarMismatch));
        }
        if self.authority != *authority {
            return Err(OpError::Gov(GovError::AuthorityMismatch));
        }
        Ok(())
    }

    /// The seed tuple from which a voter record's address is derived: the
    /// registrar's address bytes, then the depositor's.
    pub fn get_voter_seeds(registrar: &Address, authority: &Address) -> (r: Vec<Vec<u8>>)
        ensures
            r@.len() == 2,
            r@[0]@ == registrar.spec_bytes(),
            r@[1]@ == authority.spec_bytes(),
    {
        let mut r: Vec<Vec<u8>> = Vec::new();
        r.push(registrar.to_bytes());
        r.push(authority.to_bytes());
        r
    }

    /// The seed tuple from which a voter's weight record address is derived:
    /// a fixed label, the registrar's address bytes, then the depositor's.
    pub fn get_voter_weight_seeds(registrar: &Address, authority: &Address) -> (r: Vec<Vec<u8>>)
        ensures
            r@.len() == 3,
            r@[0]@ == spec_voter_weight_record_label(),
            r@[1]@ == registrar.spec_bytes(),
            r@[2]@ == authority.spec_bytes(),
    {
        let mut r: Vec<Vec<u8>> = Vec::new();
        r.push(voter_weight_record_label());
        r.push(registrar.to_bytes());
        r.push(authority.to_bytes());
        r
    }
}

/// The label that prefixes a weight record's derivation seeds: the bytes of
/// "voter-weight-record".
pub open spec fn spec_voter_weight_record_label() -> Seq<u8> {
    seq![
        118u8,
        111u8,
        116u8,
        101u8,
        114u8,
        45u8,
        119u8,
        101u8,
        105u8,
        103u8,
        104u8,
        116u8,
        45u8,
        114u8,
        101u8,
        99u8,
        111u8,
        114u8,
        100u8,
    ]
}

/// Builds the weight-record seed label.
pub fn voter_weight_record_label() -> (r: Vec<u8>)
    ensures
        r@ == spec_voter_weight_record_label(),
{
    let mut r: Vec<u8> = Vec::new();
    r.push(118);
    r.push(111);
    r.push(116);
    r.push(101);
    r.push(114);
    r.push(45);
    r.push(119);
    r.push(101);
    r.push(105);
    r.push(103);
    r.push(104);
    r.push(116);
    r.push(45);
    r.push(114);
    r.push(101);
    r.push(99);
    r.push(111);
    r.push(114);
    r.push(100);
    assert(r@ =~= spec_voter_weight_record_label());
    r
}

/// `i` is the first unused slot of `deposits`.
pub open spec fn spec_first_free_slot(deposits: Seq<DepositEntry>, i: int) -> bool {
    &&& 0 <= i < deposits.len()
    &&& !deposits[i].is_used
    &&& forall|j: int| 0 <= j < i ==> deposits[j].is_used
}

impl Voter {
    /// Finds the first free deposit slot, or nothing when every slot is in
    /// use; capacity is consumed monotonically, as no operation frees a
    /// slot.
    pub fn find_free_deposit_idx(&self) -> (r: Option<usize>)
        ensures
            r matches Some(i) ==> spec_first_free_slot(self.deposits@, i as int),
            r is None ==> forall|j: int| 0 <= j < self.deposits@.len()
                ==> self.deposits@[j].is_used,
    {
        let n = self.deposits.len();
        let mut i: usize = 0;
        while i < n
            invariant
                n == self.deposits@.len(),
                i <= n,
                forall|j: int| 0 <= j < i ==> self.deposits@[j].is_used,
            decreases n - i,
        {
            if !self.deposits[i].is_used {
                return Some(i);
            }
            i = i + 1;
        }
        None
    }
}

/// With every slot in use, there is no free slot to allocate: no index is
/// a first free slot, so the allocation past capacity must fail.
pub proof fn lemma_full_array_has_no_free_slot(deposits: Seq<DepositEntry>)
    requires
        forall|j: int| 0 <= j < deposits.len() ==> (#[trigger] deposits[j]).is_used,
    ensures
        forall|i: int| !spec_first_free_slot(deposits, i),
{
}

impl crate::account_info_util::Acc for Voter {
    open spec fn spec_max_size(&self) -> Option<usize> {
        None
    }

    fn get_max_size(&self) -> (r: Option<usize>) {
        None
    }

    open spec fn spec_stored_ok(data: Seq<u8>) -> bool {
        data.len() == VOTER_LEN && spec_deposits_ok(
            data.subrange(66, 66 + 59 * DEPOSIT_ENTRY_COUNT),
            DEPOSIT_ENTRY_COUNT as nat,
        )
    }

    fn try_from_bytes(data: &[u8]) -> (r: Result<Voter, OpError>) {
        Voter::try_from_slice(data)
    }
}

/// The voting-weight credential placeholder created beside a voter: the
/// interface record that external governance logic reads. Created with
/// zero weight and no expiry, action or target; this engine allocates it
/// but does not populate it.
#[derive(Clone, Copy, Debug, PartialEq, Eq, Structural)]
pub struct VoterWeightRecord {
    /// The realm this record belongs to.
    pub realm: Address,
    /// The governing token mint the record is associated with.
    pub governing_token_mint: Address,
    /// The owner of the governing tokens: the voter.
    pub governing_token_owner: Address,
    /// The voter's weight; zero until populated.
    pub voter_weight: u64,
}

/// Size in bytes of a freshly created weight record's image.
pub const VOTER_WEIGHT_RECORD_LEN: usize = 123;

impl VoterWeightRecord {
    /// The record image of a freshly created weight record: the interface's
    /// eight discriminator bytes, the three keys, the weight, a zero tag
    /// for each of the three absent optional fields, and eight reserved
    /// zero bytes.
    pub open spec fn spec_initial_bytes(&self) -> Seq<u8> {
        seq![46u8, 249u8, 155u8, 75u8, 153u8, 248u8, 116u8, 9u8] + self.realm.spec_bytes()
            + self.governing_token_mint.spec_bytes() + self.governing_token_owner.spec_bytes()
            + vstd::bytes::spec_u64_to_le_bytes(self.voter_weight) + seq![
            0u8,
            0u8,
            0u8,
            0u8,
            0u8,
            0u8,
            0u8,
            0u8,
            0u8,
            0u8,
            0u8,
        ]
    }

    /// Builds the initial record image.
    pub fn initial_bytes(&self) -> (r: Vec<u8>)
        ensures
            r@ == self.spec_initial_bytes(),
            r@.len() == VOTER_WEIGHT_RECORD_LEN,
    {
        let mut out: Vec<u8> = Vec::new();
        write_u8(&mut out, 46);
        write_u8(&mut out, 249);
        write_u8(&mut out, 155);
        write_u8(&mut out, 75);
        write_u8(&mut out, 153);
        write_u8(&mut out, 248);
        write_u8(&mut out, 116);
        write_u8(&mut out, 9);
        write_address(&mut out, &self.realm);
        write_address(&mut out, &self.governing_token_mint);
        write_address(&mut out, &self.governing_token_owner);
        crate::codec::write_u64(&mut out, self.voter_weight);
        proof {
            vstd::bytes::lemma_auto_spec_u64_to_from_le_bytes();
        }
        write_u8(&mut out, 0);
        write_u8(&mut out, 0);
        write_u8(&mut out, 0);
        write_u8(&mut out, 0);
        write_u8(&mut out, 0);
        write_u8(&mut out, 0);
        write_u8(&mut out, 0);
        write_u8(&mut out, 0);
        write_u8(&mut out, 0);
        write_u8(&mut out, 0);
        write_u8(&mut out, 0);
        assert(out@ =~= self.spec_initial_bytes());
        out
    }
}

impl crate::account_info_util::Acc for VoterWeightRecord {
    open spec fn spec_max_size(&self) -> Option<usize> {
        None
    }

    fn get_max_size(&self) -> (r: Option<usize>) {
        None
    }

    open spec fn spec_stored_ok(data: Seq<u8>) -> bool {
        &&& data.len() == VOTER_WEIGHT_RECORD_LEN
        &&& data.subrange(0, 8) == seq![46u8, 249u8, 155u8, 75u8, 153u8, 248u8, 116u8, 9u8]
        &&& data[112] == 0
        &&& data[113] == 0
        &&& data[114] == 0
    }

    fn try_from_bytes(data: &[u8]) -> (r: Result<VoterWeightRecord, OpError>) {
        if data.len() != VOTER_WEIGHT_RECORD_LEN {
            return Err(OpError::InvalidAccountData);
        }
        let mut k: usize = 0;
        let disc: [u8; 8] = [46, 249, 155, 75, 153, 248, 116, 9];
        while k < 8
            invariant
                k <= 8,
                data@.len() == VOTER_WEIGHT_RECORD_LEN,
                disc@ == seq![46u8, 249u8, 155u8, 75u8, 153u8, 248u8, 116u8, 9u8],
                forall|j: int| 0 <= j < k ==> data@[j] == disc@[j],
            decreases 8 - k,
        {
            if read_u8(data, k) != disc[k] {
                return Err(OpError::InvalidAccountData);
            }
            k = k + 1;
        }
        proof {
            assert(data@.subrange(0, 8) =~= disc@);
        }
        if read_u8(data, 112) != 0 || read_u8(data, 113) != 0 || read_u8(data, 114) != 0 {
            return Err(OpError::InvalidAccountData);
        }
        Ok(
            VoterWeightRecord {
                realm: Address::read_from(data, 8),
                governing_token_mint: Address::read_from(data, 40),
                governing_token_owner: Address::read_from(data, 72),
                voter_weight: crate::codec::read_u64(data, 104),
            },
        )
    }
}

/// Decoding inverts encoding for voter records: a well-formed voter is
/// exactly what its own record image stores.
pub proof fn lemma_voter_round_trip(v: Voter)
    requires
        v.wf(),
    ensures
        v.matches_bytes(v.spec_bytes()),
        v.spec_bytes().len() == VOTER_LEN,
{
    crate::address::lemma_address_round_trip(v.authority);
    crate::address::lemma_address_round_trip(v.registrar);
    lemma_deposits_bytes_len(v.deposits@);
    lemma_deposits_round_trip(v.deposits@);
    let s = v.spec_bytes();
    assert(s.subrange(0, 32) =~= v.authority.spec_bytes());
    assert(s.subrange(32, 64) =~= v.registrar.spec_bytes());
    assert(s[64] == v.voter_bump);
    assert(s[65] == v.voter_weight_record_bump);
    assert(s.subrange(66, 66 + 59 * DEPOSIT_ENTRY_COUNT) =~= spec_deposits_bytes(v.deposits@));
}

} // verus!
