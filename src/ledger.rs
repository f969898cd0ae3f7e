use vstd::prelude::*;

use crate::error::ProgramError;
use crate::keys::Key;

verus! {

/// An addressable record of the host ledger, as handed to one operation.
#[derive(Clone, Debug)]
pub struct Account {
    pub key: Key,
    pub owner: Key,
    pub lamports: u64,
    pub data: Vec<u8>,
    pub is_signer: bool,
    pub is_writable: bool,
}

impl Account {
    /// Whether the account holds no balance and no bytes.
    pub open spec fn is_empty(&self) -> bool {
        self.lamports == 0 && self.data@.len() == 0
    }
}

/// The values an operation reads from its deployment and its host: this
/// program's own address, the system program's address, and the rent rate.
#[derive(Clone, Copy, Debug)]
pub struct Runtime {
    pub program_id: Key,
    pub system_program_id: Key,
    pub lamports_per_byte: u64,
}

/// The largest record size that the host permits.
pub const MAX_PERMITTED_DATA_LENGTH: u64 = 10485760;

/// The largest rent rate under which a minimum balance cannot overflow.
pub const MAX_LAMPORTS_PER_BYTE: u64 = 1759197129867;

/// The bytes that the host charges for beside a record's own.
pub const ACCOUNT_STORAGE_OVERHEAD: u64 = 128;

/// The minimum balance of a record of `data_len` bytes.
pub open spec fn rent_exempt_minimum(lamports_per_byte: u64, data_len: nat) -> int {
    (ACCOUNT_STORAGE_OVERHEAD + data_len) * lamports_per_byte
}

/// Whether the host can compute a minimum balance for these values.
pub open spec fn rent_computable(lamports_per_byte: u64, data_len: nat) -> bool {
    data_len <= MAX_PERMITTED_DATA_LENGTH && lamports_per_byte <= MAX_LAMPORTS_PER_BYTE
}

/// Relies on pinocchio's `Rent::try_minimum_balance`: it fails above the
/// permitted data length or rate, and otherwise returns
/// `(128 + data_len) * lamports_per_byte`.
#[verifier::external_body]
fn try_minimum_balance(lamports_per_byte: u64, data_len: usize) -> (r: Result<u64, ProgramError>)
    ensures
        r is Ok <==> rent_computable(lamports_per_byte, data_len as nat),
        r matches Ok(v) ==> v == rent_exempt_minimum(lamports_per_byte, data_len as nat),
        r matches Err(e) ==> e == ProgramError::InvalidArgument,
{
    let rent = pinocchio::sysvars::rent::Rent::from_bytes(&lamports_per_byte.to_ne_bytes())
        .map_err(|_| ProgramError::InvalidArgument)?;
    rent.try_minimum_balance(data_len).map_err(|_| ProgramError::InvalidArgument)
}

impl Runtime {
    /// The balance that keeps a record of `data_len` bytes persistent.
    pub fn minimum_balance(&self, data_len: usize) -> (r: Result<u64, ProgramError>)
        ensures
            r is Ok <==> rent_computable(self.lamports_per_byte, data_len as nat),
            r matches Ok(v) ==> v == rent_exempt_minimum(self.lamports_per_byte, data_len as nat),
            r matches Err(e) ==> e == ProgramError::InvalidArgument,
    {
        try_minimum_balance(self.lamports_per_byte, data_len)
    }
}

/// Allocates `to` with `space` zero bytes and `lamports`, owned by `owner`,
/// paid for by `from`: the host's account-creation primitive.
pub fn create_account(from: &mut Account, to: &mut Account, lamports: u64, space: usize, owner: &Key)
    -> (r: Result<(), ProgramError>)
    ensures
        r is Ok <==> (old(from).is_signer && old(to).is_empty() && old(from).lamports >= lamports),
        !old(from).is_signer ==> r == Err::<(), ProgramError>(ProgramError::MissingRequiredSignature),
        old(from).is_signer && !old(to).is_empty() ==> r == Err::<(), ProgramError>(
            ProgramError::AccountAlreadyInUse,
        ),
        old(from).is_signer && old(to).is_empty() && old(from).lamports < lamports ==> r
            == Err::<(), ProgramError>(ProgramError::InsufficientFunds),
        r is Ok ==> {
            &&& *final(from) == (Account { lamports: (old(from).lamports - lamports) as u64, ..*old(from) })
            &&& final(to).key == old(to).key
            &&& final(to).owner == *owner
            &&& final(to).lamports == lamports
            &&& final(to).data@ == Seq::new(space as nat, |i: int| 0u8)
            &&& final(to).is_signer == old(to).is_signer
            &&& final(to).is_writable == old(to).is_writable
        },
        r is Err ==> *final(from) == *old(from) && *final(to) == *old(to),
{
    if !from.is_signer {
        return Err(ProgramError::MissingRequiredSignature);
    }
    if to.lamports != 0 || to.data.len() != 0 {
        return Err(ProgramError::AccountAlreadyInUse);
    }
    if from.lamports < lamports {
        return Err(ProgramError::InsufficientFunds);
    }
    from.lamports = from.lamports - lamports;
    to.lamports = lamports;
    to.owner = *owner;
    to.data = zeroes(space);
    Ok(())
}

/// A buffer of `n` zero bytes.
pub fn zeroes(n: usize) -> (r: Vec<u8>)
    ensures
        r@ == Seq::new(n as nat, |i: int| 0u8),
{
    let mut v: Vec<u8> = Vec::new();
    let mut i: usize = 0;
    while i < n
        invariant
            0 <= i <= n,
            v@ == Seq::new(i as nat, |j: int| 0u8),
        decreases n - i,
    {
        v.push(0u8);
        assert(v@ =~= Seq::new((i + 1) as nat, |j: int| 0u8));
        i = i + 1;
    }
    v
}

/// Moves `lamports` from the signer `from` to `to`: the host's transfer
/// primitive.
pub fn transfer(from: &mut Account, to: &mut Account, lamports: u64) -> (r: Result<(), ProgramError>)
    ensures
        r is Ok <==> (old(from).is_signer && old(from).lamports >= lamports
            && old(to).lamports + lamports <= u64::MAX),
        !old(from).is_signer ==> r == Err::<(), ProgramError>(ProgramError::MissingRequiredSignature),
        old(from).is_signer && old(from).lamports < lamports ==> r == Err::<(), ProgramError>(
            ProgramError::InsufficientFunds,
        ),
        old(from).is_signer && old(from).lamports >= lamports && old(to).lamports + lamports > u64::MAX
            ==> r == Err::<(), ProgramError>(ProgramError::ArithmeticOverflow),
        r is Ok ==> *final(from) == (Account { lamports: (old(from).lamports - lamports) as u64, ..*old(from) })
            && *final(to) == (Account { lamports: (old(to).lamports + lamports) as u64, ..*old(to) }),
        r is Err ==> *final(from) == *old(from) && *final(to) == *old(to),
{
    if !from.is_signer {
        return Err(ProgramError::MissingRequiredSignature);
    }
    if from.lamports < lamports {
        return Err(ProgramError::InsufficientFunds);
    }
    match to.lamports.checked_add(lamports) {
        Some(n) => {
            from.lamports = from.lamports - lamports;
            to.lamports = n;
            Ok(())
        },
        None => Err(ProgramError::ArithmeticOverflow),
    }
}

/// Moves the whole balance of `target` to `beneficiary` and truncates
/// `target` to zero bytes.
pub fn close_into(target: &mut Account, beneficiary: &mut Account) -> (r: Result<(), ProgramError>)
    ensures
        r is Ok <==> old(beneficiary).lamports + old(target).lamports <= u64::MAX,
        r matches Err(e) ==> e == ProgramError::ArithmeticOverflow,
        r is Ok ==> {
            &&& *final(beneficiary) == (Account {
                lamports: (old(beneficiary).lamports + old(target).lamports) as u64,
                ..*old(beneficiary)
            })
            &&& final(target).lamports == 0
            &&& final(target).data@.len() == 0
            &&& final(target).key == old(target).key
            &&& final(target).owner == old(target).owner
            &&& final(target).is_signer == old(target).is_signer
            &&& final(target).is_writable == old(target).is_writable
        },
        r is Err ==> *final(target) == *old(target) && *final(beneficiary) == *old(beneficiary),
{
    match beneficiary.lamports.checked_add(target.lamports) {
        Some(n) => {
            beneficiary.lamports = n;
            target.lamports = 0;
            target.data = Vec::new();
            Ok(())
        },
        None => Err(ProgramError::ArithmeticOverflow),
    }
}

} // verus!
