use vstd::prelude::*;

use crate::error::{ABLError, ProgramError};
use crate::instructions::take_first;
use crate::keys::key_eq;
use crate::ledger::{close_into, Account, Runtime};
use crate::state::{is_valid_record, load, ListConfig};

verus! {

/// The member count stored in the bytes of a list record.
pub open spec fn stored_count(data: Seq<u8>) -> u64 {
    vstd::bytes::spec_u64_from_le_bytes(data.subrange(66, 74))
}

/// The authority stored in the bytes of a list record.
pub open spec fn stored_authority(data: Seq<u8>) -> Seq<u8> {
    data.subrange(1, 33)
}

/// Whether `authority` signed and is the authority of the list stored in
/// `list_data`.
pub open spec fn is_list_authority(authority: Account, list_data: Seq<u8>) -> bool {
    authority.is_signer && stored_authority(list_data) == authority.key@
}

/// What deleting the list `list_config` makes of the accounts.
pub open spec fn delete_list_outcome(authority: Account, list_config: Account) -> Result<(), ProgramError> {
    if !is_valid_record::<ListConfig>(list_config.data@) {
        Err(ProgramError::Custom(ABLError::InvalidAccountData))
    } else if stored_count(list_config.data@) > 0 {
        Err(ProgramError::Custom(ABLError::ListNotEmpty))
    } else if !is_list_authority(authority, list_config.data@) {
        Err(ProgramError::Custom(ABLError::InvalidAuthority))
    } else if authority.lamports + list_config.lamports > u64::MAX {
        Err(ProgramError::ArithmeticOverflow)
    } else {
        Ok(())
    }
}

/// What a successful deletion leaves: the list truncated to zero bytes and
/// zero balance, its balance moved to the authority, all else as it was.
pub open spec fn deleted(before: DeleteList, after: DeleteList) -> bool {
    &&& after.list_config == (Account { lamports: 0, data: after.list_config.data, ..before.list_config })
    &&& after.list_config.data@.len() == 0
    &&& after.authority == (Account {
        lamports: (before.authority.lamports + before.list_config.lamports) as u64,
        ..before.authority
    })
}

/// The accounts of a list deletion.
pub struct DeleteList {
    pub authority: Account,
    pub list_config: Account,
}

impl DeleteList {
    /// The opcode of list deletion.
    pub const DISCRIMINATOR: u8 = 5;

    pub fn try_from(accounts: Vec<Account>, rt: &Runtime) -> (r: Result<DeleteList, ABLError>)
        ensures
            accounts@.len() != 2 ==> r == Err::<DeleteList, ABLError>(ABLError::NotEnoughAccounts),
            accounts@.len() == 2 && accounts@[1].owner@ != rt.program_id@ ==> r == Err::<
                DeleteList,
                ABLError,
            >(ABLError::InvalidConfigAccount),
            r is Ok <==> accounts@.len() == 2 && accounts@[1].owner@ == rt.program_id@,
            r matches Ok(c) ==> c.authority == accounts@[0] && c.list_config == accounts@[1],
    {
        if accounts.len() != 2 {
            return Err(ABLError::NotEnoughAccounts);
        }
        let mut rest = accounts;
        let authority = take_first(&mut rest);
        let list_config = take_first(&mut rest);
        if !key_eq(&list_config.owner, &rt.program_id) {
            return Err(ABLError::InvalidConfigAccount);
        }
        Ok(DeleteList { authority, list_config })
    }

    /// Deletes an empty list: its whole balance goes to the authority and
    /// its data is truncated to zero bytes.
    pub fn process(&mut self) -> (r: Result<(), ProgramError>)
        ensures
            r == delete_list_outcome(old(self).authority, old(self).list_config),
            r is Ok ==> deleted(*old(self), *final(self)),
            r is Err ==> *final(self) == *old(self),
    {
        let config = match load::<ListConfig>(self.list_config.data.as_slice()) {
            Ok(c) => c,
            Err(e) => return Err(ProgramError::Custom(e)),
        };
        if config.get_wallets_count() > 0 {
            return Err(ProgramError::Custom(ABLError::ListNotEmpty));
        }
        if !self.authority.is_signer || !key_eq(&config.authority, &self.authority.key) {
            return Err(ProgramError::Custom(ABLError::InvalidAuthority));
        }
        match close_into(&mut self.list_config, &mut self.authority) {
            Ok(()) => Ok(()),
            Err(e) => Err(e),
        }
    }
}

} // verus!
