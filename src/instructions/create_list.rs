use vstd::bytes::spec_u64_to_le_bytes;
use vstd::prelude::*;

use crate::address::{list_config_address, list_config_prefix, list_config_seeds};
use crate::error::{ABLError, ProgramError};
use crate::instructions::{is_derived_key, matches_derived, take_first};
use crate::keys::{key_eq, read_key, Key};
use crate::ledger::{create_account, rent_computable, rent_exempt_minimum, Account, Runtime};
use crate::state::{ListConfig, LIST_CONFIG_LEN, LIST_CONFIG_TAG};

verus! {

/// Whether a create request (mode byte, then 32 seed bytes) is well formed.
pub open spec fn create_request_valid(data: Seq<u8>) -> bool {
    data.len() == 33 && data[0] <= 2
}

/// The bytes of the list that a well-formed request of `authority` creates:
/// the given mode and seed, and no members.
pub open spec fn created_list_bytes(authority: Key, data: Seq<u8>) -> Seq<u8> {
    seq![LIST_CONFIG_TAG] + authority@ + data.subrange(1, 33) + seq![data[0]]
        + spec_u64_to_le_bytes(0)
}

/// What creating a list with `data` makes of the given accounts: the first
/// failing check decides the error.
pub open spec fn create_list_outcome(rt: Runtime, authority: Account, list_config: Account, data: Seq<u8>)
    -> Result<(), ProgramError>
{
    if !create_request_valid(data) {
        Err(ProgramError::Custom(ABLError::InvalidData))
    } else if !rent_computable(rt.lamports_per_byte, LIST_CONFIG_LEN as nat) {
        Err(ProgramError::InvalidArgument)
    } else if !is_derived_key(
        list_config.key,
        seq![list_config_prefix(), authority.key@, data.subrange(1, 33)],
        rt.program_id,
    ) {
        Err(ProgramError::InvalidSeeds)
    } else if !authority.is_signer {
        Err(ProgramError::MissingRequiredSignature)
    } else if !list_config.is_empty() {
        Err(ProgramError::AccountAlreadyInUse)
    } else if authority.lamports < rent_exempt_minimum(rt.lamports_per_byte, LIST_CONFIG_LEN as nat) {
        Err(ProgramError::InsufficientFunds)
    } else {
        Ok(())
    }
}

/// What a successful creation leaves: the new list record, owned by this
/// program and funded to its minimum balance by the authority, with every
/// other field of every account as it was.
pub open spec fn created(rt: Runtime, before: CreateList, after: CreateList, data: Seq<u8>) -> bool {
    let min = rent_exempt_minimum(rt.lamports_per_byte, LIST_CONFIG_LEN as nat);
    &&& after.list_config == (Account {
        owner: rt.program_id,
        lamports: min as u64,
        data: after.list_config.data,
        ..before.list_config
    })
    &&& after.list_config.data@ == created_list_bytes(before.authority.key, data)
    &&& after.authority == (Account { lamports: (before.authority.lamports - min) as u64, ..before.authority })
    &&& after.system_program == before.system_program
}

/// The accounts of a list creation.
pub struct CreateList {
    pub authority: Account,
    pub list_config: Account,
    pub system_program: Account,
}

impl CreateList {
    /// The opcode of list creation.
    pub const DISCRIMINATOR: u8 = 1;

    pub fn try_from(accounts: Vec<Account>, rt: &Runtime) -> (r: Result<CreateList, ABLError>)
        ensures
            accounts@.len() != 3 ==> r == Err::<CreateList, ABLError>(ABLError::NotEnoughAccounts),
            accounts@.len() == 3 && accounts@[2].key@ != rt.system_program_id@ ==> r == Err::<
                CreateList,
                ABLError,
            >(ABLError::InvalidSystemProgram),
            r is Ok <==> accounts@.len() == 3 && accounts@[2].key@ == rt.system_program_id@,
            r matches Ok(c) ==> c.authority == accounts@[0] && c.list_config == accounts@[1]
                && c.system_program == accounts@[2],
    {
        if accounts.len() != 3 {
            return Err(ABLError::NotEnoughAccounts);
        }
        let mut rest = accounts;
        let authority = take_first(&mut rest);
        let list_config = take_first(&mut rest);
        let system_program = take_first(&mut rest);
        if !key_eq(&system_program.key, &rt.system_program_id) {
            return Err(ABLError::InvalidSystemProgram);
        }
        Ok(CreateList { authority, list_config, system_program })
    }

    /// Creates the list that `data` (mode byte, then 32 seed bytes) asks
    /// for, at the address derived from the authority and the seed, funded
    /// by the authority to the minimum balance.
    pub fn process(&mut self, rt: &Runtime, data: &[u8]) -> (r: Result<(), ProgramError>)
        ensures
            r == create_list_outcome(*rt, old(self).authority, old(self).list_config, data@),
            r is Ok ==> created(*rt, *old(self), *final(self), data@),
            r is Err ==> *final(self) == *old(self),
    {
        if data.len() != 33 || data[0] > 2 {
            return Err(ProgramError::Custom(ABLError::InvalidData));
        }
        let mode = data[0];
        let lamports = rt.minimum_balance(LIST_CONFIG_LEN)?;
        let seed = read_key(data, 1);
        let found = list_config_address(&rt.program_id, &self.authority.key, &seed);
        proof {
            assert(list_config_seeds(self.authority.key, seed) =~= seq![
                list_config_prefix(),
                self.authority.key@,
                data@.subrange(1, 33),
            ]);
        }
        if !matches_derived(&found, &self.list_config.key) {
            return Err(ProgramError::InvalidSeeds);
        }
        create_account(&mut self.authority, &mut self.list_config, lamports, LIST_CONFIG_LEN, &rt.program_id)?;
        let list = ListConfig::new(self.authority.key, seed, mode);
        self.list_config.data = list.to_bytes();
        proof {
            assert(list.spec_bytes() =~= created_list_bytes(old(self).authority.key, data@));
        }
        Ok(())
    }
}

} // verus!
