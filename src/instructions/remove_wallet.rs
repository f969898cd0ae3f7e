use vstd::prelude::*;

use crate::error::{ABLError, ProgramError};
use crate::instructions::add_wallet::count_moved;
use crate::instructions::delete_list::{is_list_authority, stored_count};
use crate::instructions::take_first;
use crate::keys::key_eq;
use crate::ledger::{close_into, Account, Runtime};
use crate::state::{is_valid_record, load, ListConfig, WalletEntry};

verus! {

/// The structural checks of a membership removal, in order.
pub open spec fn remove_wallet_check(rt: Runtime, accounts: Seq<Account>) -> Result<(), ABLError> {
    if accounts.len() != 3 {
        Err(ABLError::NotEnoughAccounts)
    } else if accounts[1].owner@ != rt.program_id@ {
        Err(ABLError::InvalidConfigAccount)
    } else if !accounts[1].is_writable || !accounts[2].is_writable {
        Err(ABLError::AccountNotWritable)
    } else if !is_valid_record::<WalletEntry>(accounts[2].data@) {
        Err(ABLError::InvalidAccountData)
    } else {
        Ok(())
    }
}

/// The list address stored in the bytes of a membership record.
pub open spec fn entry_list(data: Seq<u8>) -> Seq<u8> {
    data.subrange(33, 65)
}

/// What removing the membership record makes of the accounts, once they
/// passed the checks.
pub open spec fn remove_wallet_outcome(a: RemoveWallet) -> Result<(), ProgramError> {
    if !is_valid_record::<ListConfig>(a.list_config.data@) {
        Err(ProgramError::Custom(ABLError::InvalidAccountData))
    } else if !is_list_authority(a.authority, a.list_config.data@) {
        Err(ProgramError::Custom(ABLError::InvalidAuthority))
    } else if !is_valid_record::<WalletEntry>(a.wallet_entry.data@)
        || entry_list(a.wallet_entry.data@) != a.list_config.key@ {
        Err(ProgramError::Custom(ABLError::InvalidAccountData))
    } else if stored_count(a.list_config.data@) == 0 {
        Err(ProgramError::ArithmeticOverflow)
    } else if a.authority.lamports + a.wallet_entry.lamports > u64::MAX {
        Err(ProgramError::ArithmeticOverflow)
    } else {
        Ok(())
    }
}

/// What a successful removal leaves: the membership record truncated to
/// zero bytes and zero balance, its balance moved to the authority, and the
/// list with one member fewer, with every other field as it was.
pub open spec fn removed(before: RemoveWallet, after: RemoveWallet) -> bool {
    &&& after.wallet_entry == (Account { lamports: 0, data: after.wallet_entry.data, ..before.wallet_entry })
    &&& after.wallet_entry.data@.len() == 0
    &&& after.list_config == (Account { data: after.list_config.data, ..before.list_config })
    &&& count_moved(before.list_config.data@, after.list_config.data@, -1)
    &&& after.authority == (Account {
        lamports: (before.authority.lamports + before.wallet_entry.lamports) as u64,
        ..before.authority
    })
}

/// The accounts of a membership removal.
pub struct RemoveWallet {
    pub authority: Account,
    pub list_config: Account,
    pub wallet_entry: Account,
}

impl RemoveWallet {
    /// The opcode of membership removal.
    pub const DISCRIMINATOR: u8 = 3;

    pub fn try_from(accounts: Vec<Account>, rt: &Runtime) -> (r: Result<RemoveWallet, ABLError>)
        ensures
            r is Ok <==> remove_wallet_check(*rt, accounts@) is Ok,
            r matches Err(e) ==> remove_wallet_check(*rt, accounts@) == Err::<(), ABLError>(e),
            r matches Ok(a) ==> {
                &&& a.authority == accounts@[0]
                &&& a.list_config == accounts@[1]
                &&& a.wallet_entry == accounts@[2]
            },
    {
        if accounts.len() != 3 {
            return Err(ABLError::NotEnoughAccounts);
        }
        let mut rest = accounts;
        let authority = take_first(&mut rest);
        let list_config = take_first(&mut rest);
        let wallet_entry = take_first(&mut rest);
        if !key_eq(&list_config.owner, &rt.program_id) {
            return Err(ABLError::InvalidConfigAccount);
        }
        if !list_config.is_writable || !wallet_entry.is_writable {
            return Err(ABLError::AccountNotWritable);
        }
        if load::<WalletEntry>(wallet_entry.data.as_slice()).is_err() {
            return Err(ABLError::InvalidAccountData);
        }
        Ok(RemoveWallet { authority, list_config, wallet_entry })
    }

    /// Closes the membership record into the authority and takes it out of
    /// the list's count.
    pub fn process(&mut self) -> (r: Result<(), ProgramError>)
        ensures
            r == remove_wallet_outcome(*old(self)),
            r is Ok ==> removed(*old(self), *final(self)),
            r is Err ==> *final(self) == *old(self),
    {
        let mut config = match load::<ListConfig>(self.list_config.data.as_slice()) {
            Ok(c) => c,
            Err(e) => return Err(ProgramError::Custom(e)),
        };
        let ghost old_config = config;
        if !self.authority.is_signer || !key_eq(&config.authority, &self.authority.key) {
            return Err(ProgramError::Custom(ABLError::InvalidAuthority));
        }
        let entry = match load::<WalletEntry>(self.wallet_entry.data.as_slice()) {
            Ok(e) => e,
            Err(e) => return Err(ProgramError::Custom(e)),
        };
        if !key_eq(&entry.list_config, &self.list_config.key) {
            return Err(ProgramError::Custom(ABLError::InvalidAccountData));
        }
        if config.decrement_wallets_count().is_err() {
            return Err(ProgramError::ArithmeticOverflow);
        }
        match close_into(&mut self.wallet_entry, &mut self.authority) {
            Ok(()) => {},
            Err(e) => return Err(e),
        }
        self.list_config.data = config.to_bytes();
        proof {
            old_config.lemma_round_trip(old(self).list_config.data@);
            config.lemma_round_trip(config.spec_bytes());
            assert(config.spec_bytes().subrange(0, 66) =~= old_config.spec_bytes().subrange(0, 66));
        }
        Ok(())
    }
}

} // verus!
