use vstd::prelude::*;

use crate::address::{wallet_entry_address, wallet_entry_seeds};
use crate::error::{ABLError, ProgramError};
use crate::instructions::delete_list::{is_list_authority, stored_count};
use crate::instructions::{is_derived_key, matches_derived, take_first};
use crate::keys::{key_eq, Key};
use crate::ledger::{create_account, rent_computable, rent_exempt_minimum, Account, Runtime};
use crate::state::{is_valid_record, load, ListConfig, WalletEntry, WALLET_ENTRY_LEN, WALLET_ENTRY_TAG};

verus! {

/// The bytes of the membership record of `wallet` in the list at `list`.
pub open spec fn entry_bytes(wallet: Key, list: Key) -> Seq<u8> {
    seq![WALLET_ENTRY_TAG] + wallet@ + list@
}

/// Whether `after` is the list record `before` with one more member.
pub open spec fn count_moved(before: Seq<u8>, after: Seq<u8>, delta: int) -> bool {
    &&& is_valid_record::<ListConfig>(after)
    &&& after.subrange(0, 66) == before.subrange(0, 66)
    &&& stored_count(after) == stored_count(before) + delta
}

/// The structural checks of a membership addition, in order.
pub open spec fn add_wallet_check(rt: Runtime, accounts: Seq<Account>) -> Result<(), ABLError> {
    if accounts.len() != 5 {
        Err(ABLError::NotEnoughAccounts)
    } else if accounts[1].owner@ != rt.program_id@ {
        Err(ABLError::InvalidConfigAccount)
    } else if !is_valid_record::<ListConfig>(accounts[1].data@) {
        Err(ABLError::InvalidAccountData)
    } else if !is_list_authority(accounts[0], accounts[1].data@) {
        Err(ABLError::InvalidAuthority)
    } else if !accounts[1].is_writable || !accounts[3].is_writable {
        Err(ABLError::AccountNotWritable)
    } else if accounts[4].key@ != rt.system_program_id@ {
        Err(ABLError::InvalidSystemProgram)
    } else {
        Ok(())
    }
}

/// What adding the wallet makes of the accounts, once they passed the checks.
pub open spec fn add_wallet_outcome(rt: Runtime, a: AddWallet) -> Result<(), ProgramError> {
    if !is_valid_record::<ListConfig>(a.list_config.data@) {
        Err(ProgramError::Custom(ABLError::InvalidAccountData))
    } else if stored_count(a.list_config.data@) == u64::MAX {
        Err(ProgramError::ArithmeticOverflow)
    } else if !rent_computable(rt.lamports_per_byte, WALLET_ENTRY_LEN as nat) {
        Err(ProgramError::InvalidArgument)
    } else if !is_derived_key(a.wallet_entry.key, wallet_entry_seeds(a.list_config.key, a.wallet.key), rt.program_id) {
        Err(ProgramError::InvalidSeeds)
    } else if !a.authority.is_signer {
        Err(ProgramError::MissingRequiredSignature)
    } else if !a.wallet_entry.is_empty() {
        Err(ProgramError::AccountAlreadyInUse)
    } else if a.authority.lamports < rent_exempt_minimum(rt.lamports_per_byte, WALLET_ENTRY_LEN as nat) {
        Err(ProgramError::InsufficientFunds)
    } else {
        Ok(())
    }
}

/// What a successful addition leaves: the membership record, owned by this
/// program and funded to its minimum balance by the authority, and the
/// list with one more member, with every other field as it was.
pub open spec fn added(rt: Runtime, before: AddWallet, after: AddWallet) -> bool {
    let min = rent_exempt_minimum(rt.lamports_per_byte, WALLET_ENTRY_LEN as nat);
    &&& after.wallet_entry == (Account {
        owner: rt.program_id,
        lamports: min as u64,
        data: after.wallet_entry.data,
        ..before.wallet_entry
    })
    &&& after.wallet_entry.data@ == entry_bytes(before.wallet.key, before.list_config.key)
    &&& after.list_config == (Account { data: after.list_config.data, ..before.list_config })
    &&& count_moved(before.list_config.data@, after.list_config.data@, 1)
    &&& after.authority == (Account { lamports: (before.authority.lamports - min) as u64, ..before.authority })
    &&& after.wallet == before.wallet
    &&& after.system_program == before.system_program
}

/// The accounts of a membership addition.
pub struct AddWallet {
    pub authority: Account,
    pub list_config: Account,
    pub wallet: Account,
    pub wallet_entry: Account,
    pub system_program: Account,
}

impl AddWallet {
    /// The opcode of membership addition.
    pub const DISCRIMINATOR: u8 = 2;

    pub fn try_from(accounts: Vec<Account>, rt: &Runtime) -> (r: Result<AddWallet, ABLError>)
        ensures
            r is Ok <==> add_wallet_check(*rt, accounts@) is Ok,
            r matches Err(e) ==> add_wallet_check(*rt, accounts@) == Err::<(), ABLError>(e),
            r matches Ok(a) ==> {
                &&& a.authority == accounts@[0]
                &&& a.list_config == accounts@[1]
                &&& a.wallet == accounts@[2]
                &&& a.wallet_entry == accounts@[3]
                &&& a.system_program == accounts@[4]
            },
    {
        if accounts.len() != 5 {
            return Err(ABLError::NotEnoughAccounts);
        }
        let mut rest = accounts;
        let authority = take_first(&mut rest);
        let list_config = take_first(&mut rest);
        let wallet = take_first(&mut rest);
        let wallet_entry = take_first(&mut rest);
        let system_program = take_first(&mut rest);
        if !key_eq(&list_config.owner, &rt.program_id) {
            return Err(ABLError::InvalidConfigAccount);
        }
        let config = load::<ListConfig>(list_config.data.as_slice())?;
        if !authority.is_signer || !key_eq(&config.authority, &authority.key) {
            return Err(ABLError::InvalidAuthority);
        }
        if !list_config.is_writable || !wallet_entry.is_writable {
            return Err(ABLError::AccountNotWritable);
        }
        if !key_eq(&system_program.key, &rt.system_program_id) {
            return Err(ABLError::InvalidSystemProgram);
        }
        Ok(AddWallet { authority, list_config, wallet, wallet_entry, system_program })
    }

    /// Creates the wallet's membership record at the address derived from
    /// the list and the wallet, funded by the authority, and counts it in
    /// the list.
    pub fn process(&mut self, rt: &Runtime) -> (r: Result<(), ProgramError>)
        ensures
            r == add_wallet_outcome(*rt, *old(self)),
            r is Ok ==> added(*rt, *old(self), *final(self)),
            r is Err ==> *final(self) == *old(self),
    {
        let mut config = match load::<ListConfig>(self.list_config.data.as_slice()) {
            Ok(c) => c,
            Err(e) => return Err(ProgramError::Custom(e)),
        };
        let ghost old_config = config;
        if config.increment_wallets_count().is_err() {
            return Err(ProgramError::ArithmeticOverflow);
        }
        let lamports = rt.minimum_balance(WALLET_ENTRY_LEN)?;
        let found = wallet_entry_address(&rt.program_id, &self.list_config.key, &self.wallet.key);
        if !matches_derived(&found, &self.wallet_entry.key) {
            return Err(ProgramError::InvalidSeeds);
        }
        create_account(&mut self.authority, &mut self.wallet_entry, lamports, WALLET_ENTRY_LEN, &rt.program_id)?;
        let entry = WalletEntry::new(self.wallet.key, self.list_config.key);
        self.wallet_entry.data = entry.to_bytes();
        self.list_config.data = config.to_bytes();
        proof {
            old_config.lemma_round_trip(old(self).list_config.data@);
            config.lemma_round_trip(config.spec_bytes());
            assert(config.spec_bytes().subrange(0, 66) =~= old_config.spec_bytes().subrange(0, 66));
        }
        Ok(())
    }
}

} // verus!
