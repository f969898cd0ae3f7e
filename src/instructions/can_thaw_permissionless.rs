use solana_curve25519::edwards::PodEdwardsPoint;
use vstd::prelude::*;

use crate::error::{ABLError, ProgramError};
use crate::instructions::take_first;
use crate::keys::Key;
use crate::ledger::Account;
use crate::state::{is_valid_record, load, ListConfig, Mode, WalletEntry};

verus! {

/// Whether 32 bytes are the compressed form of a point of the signature
/// curve, that is, an address that a private key can control.
pub uninterp spec fn is_on_curve(point: Seq<u8>) -> bool;

/// Relies on solana-curve25519's `validate_edwards`: whether the bytes
/// decompress to an Edwards point, a function of the bytes alone.
#[verifier::external_body]
fn validate_edwards(point: &Key) -> (r: bool)
    ensures
        r == is_on_curve(point@),
{
    solana_curve25519::edwards::validate_edwards(&PodEdwardsPoint(*point))
}

/// The verdict of one list in `mode` on a wallet: whether its address is on
/// the curve, and whether it has a membership record in the list.
pub open spec fn spec_thaw_verdict(mode: Mode, on_curve: bool, member: bool) -> Result<(), ABLError> {
    match mode {
        Mode::Allow => if member { Ok(()) } else { Err(ABLError::AccountBlocked) },
        Mode::AllowAllEoas => if on_curve || member { Ok(()) } else { Err(ABLError::AccountBlocked) },
        Mode::Block => if member { Err(ABLError::AccountBlocked) } else { Ok(()) },
    }
}

/// The verdict of one list on one wallet, given what was learned of it.
pub fn thaw_verdict(mode: Mode, on_curve: bool, member: bool) -> (r: Result<(), ABLError>)
    ensures
        r == spec_thaw_verdict(mode, on_curve, member),
{
    match mode {
        Mode::Allow => if member { Ok(()) } else { Err(ABLError::AccountBlocked) },
        Mode::AllowAllEoas => if on_curve || member { Ok(()) } else { Err(ABLError::AccountBlocked) },
        Mode::Block => if member { Err(ABLError::AccountBlocked) } else { Ok(()) },
    }
}

/// The verdict of the list stored in `list_data` on the wallet `owner`,
/// whose membership record in that list, if any, is `entry_data`.
pub open spec fn pair_verdict(list_data: Seq<u8>, owner: Key, entry_data: Seq<u8>) -> Result<(), ProgramError> {
    if !is_valid_record::<ListConfig>(list_data) {
        Err(ProgramError::Custom(ABLError::InvalidAccountData))
    } else {
        match spec_thaw_verdict(
            Mode::from_code(list_data[65]),
            is_on_curve(owner@),
            is_valid_record::<WalletEntry>(entry_data),
        ) {
            Ok(_) => Ok(()),
            Err(e) => Err(ProgramError::Custom(e)),
        }
    }
}

/// The verdict on `owner` of the (list, membership record) pairs in
/// `accounts`: the first pair that denies decides, and no pair allows.
pub open spec fn decide_pairs(accounts: Seq<Account>, owner: Key) -> Result<(), ProgramError>
    decreases accounts.len(),
{
    if accounts.len() == 0 {
        Ok(())
    } else if accounts.len() == 1 {
        Err(ProgramError::Custom(ABLError::NotEnoughAccounts))
    } else {
        match pair_verdict(accounts[0].data@, owner, accounts[1].data@) {
            Err(e) => Err(e),
            Ok(_) => decide_pairs(accounts.skip(2), owner),
        }
    }
}

/// The accounts of a thaw check, in the order the host passes them.
pub struct CanThawPermissionless {
    pub authority: Account,
    pub token_account: Account,
    pub mint: Account,
    pub owner: Account,
    pub extra_metas: Account,
    /// The resolved (list, membership record) pairs.
    pub remaining_accounts: Vec<Account>,
}

impl CanThawPermissionless {
    /// The opcode of the thaw check.
    pub const DISCRIMINATOR: u8 = 8;

    pub fn try_from(accounts: Vec<Account>) -> (r: Result<CanThawPermissionless, ABLError>)
        ensures
            r is Ok <==> accounts@.len() >= 5,
            r matches Err(e) ==> e == ABLError::NotEnoughAccounts,
            r matches Ok(c) ==> {
                &&& c.authority == accounts@[0]
                &&& c.token_account == accounts@[1]
                &&& c.mint == accounts@[2]
                &&& c.owner == accounts@[3]
                &&& c.extra_metas == accounts@[4]
                &&& c.remaining_accounts@ == accounts@.skip(5)
            },
    {
        if accounts.len() < 5 {
            return Err(ABLError::NotEnoughAccounts);
        }
        let ghost all = accounts@;
        let mut rest = accounts;
        let authority = take_first(&mut rest);
        let token_account = take_first(&mut rest);
        let mint = take_first(&mut rest);
        let owner = take_first(&mut rest);
        let extra_metas = take_first(&mut rest);
        assert(rest@ =~= all.skip(5));
        Ok(CanThawPermissionless { authority, token_account, mint, owner, extra_metas, remaining_accounts: rest })
    }

    /// Allows the thaw only where every (list, membership record) pair allows it.
    pub fn process(&self) -> (r: Result<(), ProgramError>)
        ensures
            r == decide_pairs(self.remaining_accounts@, self.owner.key),
    {
        let accounts = &self.remaining_accounts;
        let n = accounts.len();
        let mut i: usize = 0;
        assert(accounts@.skip(0) =~= accounts@);
        while i < n
            invariant
                n == accounts@.len(),
                accounts@ == self.remaining_accounts@,
                i <= n,
                i % 2 == 0,
                decide_pairs(accounts@, self.owner.key) == decide_pairs(accounts@.skip(i as int), self.owner.key),
            decreases n - i,
        {
            let ghost tail = accounts@.skip(i as int);
            if i + 1 >= n {
                assert(tail.len() == 1);
                assert(decide_pairs(tail, self.owner.key) == Err::<(), ProgramError>(
                    ProgramError::Custom(ABLError::NotEnoughAccounts),
                ));
                return Err(ProgramError::Custom(ABLError::NotEnoughAccounts));
            }
            assert(tail[0] == accounts@[i as int] && tail[1] == accounts@[i + 1]);
            let res = Self::validate_thaw_list(&accounts[i], &self.owner, &accounts[i + 1]);
            if let Err(e) = res {
                assert(tail.len() >= 2);
                assert(decide_pairs(tail, self.owner.key) == Err::<(), ProgramError>(e));
                return Err(e);
            }
            assert(tail.skip(2) =~= accounts@.skip(i + 2));
            assert(tail.len() >= 2);
            i = i + 2;
        }
        assert(accounts@.skip(i as int).len() == 0);
        Ok(())
    }

    /// The verdict of one list on the owner, given the owner's membership
    /// record in it, if any.
    pub fn validate_thaw_list(list: &Account, owner: &Account, wallet_entry: &Account) -> (r: Result<
        (),
        ProgramError,
    >)
        ensures
            r == pair_verdict(list.data@, owner.key, wallet_entry.data@),
    {
        let config = match load::<ListConfig>(list.data.as_slice()) {
            Ok(c) => c,
            Err(e) => return Err(ProgramError::Custom(e)),
        };
        let mode = config.get_mode();
        let member = load::<WalletEntry>(wallet_entry.data.as_slice()).is_ok();
        let on_curve = match mode {
            Mode::AllowAllEoas => validate_edwards(&owner.key),
            _ => false,
        };
        assert(mode == Mode::AllowAllEoas ==> on_curve == is_on_curve(owner.key@));
        match thaw_verdict(mode, on_curve, member) {
            Ok(()) => Ok(()),
            Err(e) => Err(ProgramError::Custom(e)),
        }
    }
}

} // verus!
