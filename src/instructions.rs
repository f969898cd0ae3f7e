//! The operations, one module each, selected by the opcode byte.

pub mod add_wallet;
pub mod can_thaw_permissionless;
pub mod create_list;
pub mod delete_list;
pub mod remove_wallet;
pub mod setup_extra_metas;

use vstd::prelude::*;

use crate::address::program_address;
use crate::keys::{key_eq, Key};
use crate::ledger::Account;

verus! {

/// Removes and returns the first account of `accounts`.
pub(crate) fn take_first(accounts: &mut Vec<Account>) -> (r: Account)
    requires
        old(accounts)@.len() > 0,
    ensures
        r == old(accounts)@[0],
        final(accounts)@ == old(accounts)@.skip(1),
{
    let r = accounts.remove(0);
    assert(accounts@ =~= old(accounts)@.skip(1));
    r
}

/// Whether `key` is the address that `seeds` derive under `program_id`.
pub open spec fn is_derived_key(key: Key, seeds: Seq<Seq<u8>>, program_id: Key) -> bool {
    program_address(seeds, program_id@) matches Some((k, _)) && k == key@
}

/// Whether a derivation found `key`.
pub(crate) fn matches_derived(found: &Option<(Key, u8)>, key: &Key) -> (r: bool)
    ensures
        r == (found matches Some((k, _)) && k@ == key@),
{
    match found {
        Some((k, _)) => key_eq(k, key),
        None => false,
    }
}

} // verus!
