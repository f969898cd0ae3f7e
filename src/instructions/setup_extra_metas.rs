use vstd::bytes::spec_u32_to_le_bytes;
use vstd::prelude::*;

use crate::address::{extra_metas_address, extra_metas_seeds, wallet_entry_prefix, wallet_entry_prefix_bytes};
use crate::error::{ABLError, ProgramError};
use crate::instructions::{is_derived_key, matches_derived, take_first};
use crate::keys::{key_eq, Key};
use crate::ledger::{
    create_account, rent_computable, rent_exempt_minimum, transfer, zeroes, Account, Runtime,
};
use crate::metas::{
    can_thaw_tag, extra_metas_size, init_extra_metas, meta_list_size, meta_list_value, meta_with_pubkey,
    meta_with_seeds, metas_bytes, packed_seeds, pad32, ExtraMeta, SeedSpec,
};
use crate::state::{is_valid_record, load, ListConfig};

verus! {

/// The most lists that one extra-reference list may name.
pub const MAX_LISTS: usize = 5;

/// What a mint's configuration record, kept by the token access-control
/// program, says of the mint: which mint it is for and which authority
/// controls its freezing.
#[derive(Clone, Copy, Debug)]
pub struct MintConfig {
    pub mint: Key,
    pub freeze_authority: Key,
}

/// The first error among the configured lists, in order: each must be
/// owned by this program and hold a list record.
pub open spec fn lists_check(lists: Seq<Account>, program_id: Key) -> Result<(), ABLError>
    decreases lists.len(),
{
    if lists.len() == 0 {
        Ok(())
    } else if lists[0].owner@ != program_id@ {
        Err(ABLError::InvalidConfigAccount)
    } else if !is_valid_record::<ListConfig>(lists[0].data@) {
        Err(ABLError::InvalidAccountData)
    } else {
        lists_check(lists.skip(1), program_id)
    }
}

/// The packed seeds of the recipe for the membership record of the list at
/// `slot` of the hook's accounts: the membership literal, that list's
/// address, and the owner field (bytes 32 to 64) of the token account.
pub open spec fn recipe_config(slot: int) -> Seq<u8> {
    pad32(seq![1u8, 12] + wallet_entry_prefix() + seq![3u8, slot as u8] + seq![4u8, 1, 32, 32])
}

/// The two stored descriptors of the `i`-th configured list, at `key`: the
/// list itself, then the recipe for the wallet's membership record in it.
pub open spec fn pair_bytes(key: Seq<u8>, i: int) -> Seq<u8> {
    seq![0u8] + key + seq![0u8, 0u8] + seq![1u8] + recipe_config(5 + 2 * i) + seq![0u8, 0u8]
}

/// The descriptors of all configured lists, in list order.
pub open spec fn pairs_bytes(keys: Seq<Seq<u8>>) -> Seq<u8>
    decreases keys.len(),
{
    if keys.len() == 0 {
        Seq::empty()
    } else {
        pairs_bytes(keys.drop_last()) + pair_bytes(keys.last(), keys.len() - 1)
    }
}

/// The addresses of the given accounts.
pub open spec fn keys_of(accounts: Seq<Account>) -> Seq<Seq<u8>> {
    accounts.map_values(|a: Account| a.key@)
}

/// What follows the 8-byte type tag in the extra-reference list of the
/// lists at `keys`: value length, entry count (two per list), entries.
pub open spec fn configured_value(keys: Seq<Seq<u8>>) -> Seq<u8> {
    spec_u32_to_le_bytes((4 + 70 * keys.len()) as u32) + spec_u32_to_le_bytes((2 * keys.len()) as u32)
        + pairs_bytes(keys)
}

/// The structural checks of a configuration, in order.
pub open spec fn setup_extra_metas_check(rt: Runtime, accounts: Seq<Account>) -> Result<(), ABLError> {
    if accounts.len() < 5 {
        Err(ABLError::NotEnoughAccounts)
    } else if !accounts[0].is_signer {
        Err(ABLError::InvalidAuthority)
    } else if !is_derived_key(accounts[3].key, extra_metas_seeds(accounts[2].key), rt.program_id) {
        Err(ABLError::InvalidExtraMetasAccount)
    } else if accounts[4].key@ != rt.system_program_id@ {
        Err(ABLError::InvalidSystemProgram)
    } else {
        Ok(())
    }
}

/// The funding step: what moving the extra-reference list's balance to
/// exactly `min` gives, where the record is already this program's.
pub open spec fn rebalance_outcome(authority: Account, extra: Account, min: int) -> Result<(), ProgramError> {
    if extra.lamports < min {
        if !authority.is_signer {
            Err(ProgramError::MissingRequiredSignature)
        } else if authority.lamports < min - extra.lamports {
            Err(ProgramError::InsufficientFunds)
        } else {
            Ok(())
        }
    } else if authority.lamports + (extra.lamports - min) > u64::MAX {
        Err(ProgramError::ArithmeticOverflow)
    } else {
        Ok(())
    }
}

/// The allocation step: what creating the extra-reference list with `min`
/// gives, where the record is not yet this program's.
pub open spec fn allocate_outcome(authority: Account, extra: Account, min: int) -> Result<(), ProgramError> {
    if !authority.is_signer {
        Err(ProgramError::MissingRequiredSignature)
    } else if !extra.is_empty() {
        Err(ProgramError::AccountAlreadyInUse)
    } else if authority.lamports < min {
        Err(ProgramError::InsufficientFunds)
    } else {
        Ok(())
    }
}

/// What configuring the lists makes of the accounts, once they passed the
/// checks; `mint_config` is the decoded mint configuration record, if it
/// decoded.
pub open spec fn setup_extra_metas_outcome(
    rt: Runtime,
    authority: Account,
    mint: Account,
    extra_metas: Account,
    lists: Seq<Account>,
    mint_config: Option<MintConfig>,
) -> Result<(), ProgramError> {
    let size = meta_list_size(2 * lists.len());
    let min = rent_exempt_minimum(rt.lamports_per_byte, size);
    match mint_config {
        None => Err(ProgramError::Custom(ABLError::InvalidMintConfig)),
        Some(cfg) => if cfg.mint@ != mint.key@ || cfg.freeze_authority@ != authority.key@ {
            Err(ProgramError::Custom(ABLError::InvalidAuthority))
        } else if lists.len() > MAX_LISTS {
            Err(ProgramError::Custom(ABLError::InvalidData))
        } else if let Err(e) = lists_check(lists, rt.program_id) {
            Err(ProgramError::Custom(e))
        } else if !rent_computable(rt.lamports_per_byte, size) {
            Err(ProgramError::InvalidArgument)
        } else if extra_metas.owner@ == rt.program_id@ {
            rebalance_outcome(authority, extra_metas, min)
        } else {
            allocate_outcome(authority, extra_metas, min)
        },
    }
}

/// The whole stored extra-reference list of the lists at `keys`: the
/// can-thaw type tag, then the value.
pub open spec fn configured_record(keys: Seq<Seq<u8>>) -> Seq<u8> {
    can_thaw_tag() + configured_value(keys)
}

/// What a successful configuration leaves, over the accounts in the order
/// the host passes them: the extra-reference list holds exactly the record
/// of the given lists, is owned by this program and holds exactly its
/// minimum balance; the authority paid or received the difference; every
/// other field of every account is as it was.
pub open spec fn configured(rt: Runtime, before: Seq<Account>, after: Seq<Account>) -> bool {
    let lists = before.skip(5);
    let size = meta_list_size(2 * lists.len());
    &&& before.len() >= 5
    &&& after.len() == before.len()
    &&& after[3] == (Account {
        owner: rt.program_id,
        lamports: rent_exempt_minimum(rt.lamports_per_byte, size) as u64,
        data: after[3].data,
        ..before[3]
    })
    &&& after[3].data@.len() == size
    &&& after[3].data@ == configured_record(keys_of(lists))
    &&& after[0] == (Account { lamports: after[0].lamports, ..before[0] })
    &&& after[0].lamports + after[3].lamports == before[0].lamports + before[3].lamports
    &&& after[1] == before[1]
    &&& after[2] == before[2]
    &&& after[4] == before[4]
    &&& after.skip(5) == lists
}

/// The accounts of a configuration.
pub struct SetupExtraMetas {
    pub authority: Account,
    pub mint_config: Account,
    pub mint: Account,
    pub extra_metas: Account,
    pub system_program: Account,
    /// The lists to configure, in order.
    pub remaining_accounts: Vec<Account>,
}

fn check_lists(lists: &Vec<Account>, program_id: &Key) -> (r: Result<(), ABLError>)
    ensures
        r == lists_check(lists@, *program_id),
{
    let n = lists.len();
    let mut i: usize = 0;
    assert(lists@.skip(0) =~= lists@);
    while i < n
        invariant
            n == lists@.len(),
            i <= n,
            lists_check(lists@, *program_id) == lists_check(lists@.skip(i as int), *program_id),
        decreases n - i,
    {
        let ghost tail = lists@.skip(i as int);
        assert(tail[0] == lists@[i as int]);
        if !key_eq(&lists[i].owner, program_id) {
            return Err(ABLError::InvalidConfigAccount);
        }
        if load::<ListConfig>(lists[i].data.as_slice()).is_err() {
            return Err(ABLError::InvalidAccountData);
        }
        assert(tail.skip(1) =~= lists@.skip(i + 1));
        i = i + 1;
    }
    assert(lists@.skip(i as int).len() == 0);
    Ok(())
}

/// The descriptors of the lists at `lists`, two per list, in order.
fn build_metas(lists: &Vec<Account>) -> (r: Vec<ExtraMeta>)
    requires
        lists@.len() <= MAX_LISTS,
    ensures
        r@.len() == 2 * lists@.len(),
        metas_bytes(r@) == pairs_bytes(keys_of(lists@)),
        forall|i: int| 0 <= i < r@.len() ==> #[trigger] r@[i].is_signer <= 1 && r@[i].is_writable <= 1,
{
    let n = lists.len();
    let mut metas: Vec<ExtraMeta> = Vec::new();
    let mut i: usize = 0;
    while i < n
        invariant
            n == lists@.len(),
            n <= MAX_LISTS,
            i <= n,
            metas@.len() == 2 * i,
            metas_bytes(metas@) == pairs_bytes(keys_of(lists@).subrange(0, i as int)),
            forall|j: int| 0 <= j < metas@.len() ==> #[trigger] metas@[j].is_signer <= 1 && metas@[j].is_writable <= 1,
        decreases n - i,
    {
        let fixed = meta_with_pubkey(&lists[i].key, false, false);
        let slot: u8 = (2 * i + 5) as u8;
        let seeds: Vec<SeedSpec> = vec![
            SeedSpec::Literal { bytes: wallet_entry_prefix_bytes() },
            SeedSpec::AccountKey { index: slot },
            SeedSpec::AccountData { account_index: 1, data_index: 32, length: 32 },
        ];
        proof {
            reveal_with_fuel(packed_seeds, 4);
            assert(seeds@.drop_last().drop_last().drop_last() =~= Seq::<SeedSpec>::empty());
            assert(packed_seeds(seeds@) =~= seq![1u8, 12] + wallet_entry_prefix() + seq![3u8, slot]
                + seq![4u8, 1, 32, 32]);
        }
        let recipe = meta_with_seeds(&seeds, false, false);
        let ghost prev = metas@;
        metas.push(fixed);
        metas.push(recipe);
        proof {
            let keys = keys_of(lists@);
            assert(metas@.drop_last() =~= prev.push(fixed));
            assert(prev.push(fixed).drop_last() =~= prev);
            assert(keys.subrange(0, i + 1).drop_last() =~= keys.subrange(0, i as int));
            assert(keys.subrange(0, i + 1).last() == lists@[i as int].key@);
            assert(recipe.address_config@ == recipe_config(5 + 2 * i));
            assert(fixed.spec_bytes() + recipe.spec_bytes() =~= pair_bytes(lists@[i as int].key@, i as int));
            assert(metas@.last() == recipe);
            assert(metas_bytes(metas@) == metas_bytes(prev.push(fixed)) + recipe.spec_bytes());
            assert(prev.push(fixed).last() == fixed);
            assert(metas_bytes(prev.push(fixed)) == metas_bytes(prev) + fixed.spec_bytes());
            assert(metas_bytes(metas@) =~= metas_bytes(prev) + fixed.spec_bytes() + recipe.spec_bytes());
        }
        i = i + 1;
    }
    assert(keys_of(lists@).subrange(0, n as int) =~= keys_of(lists@));
    metas
}

impl SetupExtraMetas {
    /// The accounts in the order the host passes them: authority, mint
    /// configuration, mint, extra-reference list, system program, lists.
    pub open spec fn accounts_view(&self) -> Seq<Account> {
        seq![self.authority, self.mint_config, self.mint, self.extra_metas, self.system_program]
            + self.remaining_accounts@
    }

    /// The opcode of configuration.
    pub const DISCRIMINATOR: u8 = 4;

    pub fn try_from(accounts: Vec<Account>, rt: &Runtime) -> (r: Result<SetupExtraMetas, ABLError>)
        ensures
            r is Ok <==> setup_extra_metas_check(*rt, accounts@) is Ok,
            r matches Err(e) ==> setup_extra_metas_check(*rt, accounts@) == Err::<(), ABLError>(e),
            r matches Ok(s) ==> {
                &&& s.authority == accounts@[0]
                &&& s.mint_config == accounts@[1]
                &&& s.mint == accounts@[2]
                &&& s.extra_metas == accounts@[3]
                &&& s.system_program == accounts@[4]
                &&& s.remaining_accounts@ == accounts@.skip(5)
            },
    {
        if accounts.len() < 5 {
            return Err(ABLError::NotEnoughAccounts);
        }
        let ghost all = accounts@;
        let mut rest = accounts;
        let authority = take_first(&mut rest);
        let mint_config = take_first(&mut rest);
        let mint = take_first(&mut rest);
        let extra_metas = take_first(&mut rest);
        let system_program = take_first(&mut rest);
        assert(rest@ =~= all.skip(5));
        if !authority.is_signer {
            return Err(ABLError::InvalidAuthority);
        }
        let found = extra_metas_address(&rt.program_id, &mint.key);
        if !matches_derived(&found, &extra_metas.key) {
            return Err(ABLError::InvalidExtraMetasAccount);
        }
        if !key_eq(&system_program.key, &rt.system_program_id) {
            return Err(ABLError::InvalidSystemProgram);
        }
        Ok(SetupExtraMetas { authority, mint_config, mint, extra_metas, system_program, remaining_accounts: rest })
    }

    /// Writes the extra-reference list of the mint for the configured
    /// lists, replacing what it held, with its balance brought to exactly
    /// the minimum for its new size.
    pub fn process(&mut self, rt: &Runtime, mint_config: Option<MintConfig>) -> (r: Result<(), ProgramError>)
        ensures
            r == setup_extra_metas_outcome(
                *rt,
                old(self).authority,
                old(self).mint,
                old(self).extra_metas,
                old(self).remaining_accounts@,
                mint_config,
            ),
            r is Ok ==> configured(*rt, old(self).accounts_view(), final(self).accounts_view()),
            r is Err ==> *final(self) == *old(self),
    {
        let cfg = match mint_config {
            Some(c) => c,
            None => return Err(ProgramError::Custom(ABLError::InvalidMintConfig)),
        };
        if !key_eq(&cfg.mint, &self.mint.key) || !key_eq(&cfg.freeze_authority, &self.authority.key) {
            return Err(ProgramError::Custom(ABLError::InvalidAuthority));
        }
        if self.remaining_accounts.len() > MAX_LISTS {
            return Err(ProgramError::Custom(ABLError::InvalidData));
        }
        if let Err(e) = check_lists(&self.remaining_accounts, &rt.program_id) {
            return Err(ProgramError::Custom(e));
        }
        let n = self.remaining_accounts.len();
        let size = extra_metas_size(2 * n);
        let min = rt.minimum_balance(size)?;
        if key_eq(&self.extra_metas.owner, &rt.program_id) {
            let current = self.extra_metas.lamports;
            if current < min {
                match transfer(&mut self.authority, &mut self.extra_metas, min - current) {
                    Ok(()) => {},
                    Err(e) => return Err(e),
                }
            } else if current > min {
                let diff = current - min;
                match self.authority.lamports.checked_add(diff) {
                    Some(total) => {
                        self.authority.lamports = total;
                        self.extra_metas.lamports = min;
                    },
                    None => return Err(ProgramError::ArithmeticOverflow),
                }
            }
            self.extra_metas.data = zeroes(size);
        } else {
            match create_account(&mut self.authority, &mut self.extra_metas, min, size, &rt.program_id) {
                Ok(()) => {},
                Err(e) => return Err(e),
            }
        }
        let metas = build_metas(&self.remaining_accounts);
        init_extra_metas(&mut self.extra_metas.data, &metas);
        proof {
            assert(meta_list_value(metas@) =~= configured_value(keys_of(self.remaining_accounts@)));
            let d = self.extra_metas.data@;
            assert(d =~= d.subrange(0, 8) + d.subrange(8, d.len() as int));
            assert(self.accounts_view().skip(5) =~= old(self).accounts_view().skip(5));
            let before = old(self).accounts_view();
            let after = self.accounts_view();
            assert(before.skip(5) =~= old(self).remaining_accounts@);
            assert(after[3] == self.extra_metas && before[3] == old(self).extra_metas);
            assert(after[0] == self.authority && before[0] == old(self).authority);
            assert(self.extra_metas.data@.len() == meta_list_size(2 * n as nat));
            assert(self.extra_metas.data@ == configured_record(keys_of(before.skip(5))));
            assert(self.extra_metas == (Account {
                owner: rt.program_id,
                lamports: rent_exempt_minimum(rt.lamports_per_byte, meta_list_size(2 * n as nat)) as u64,
                data: self.extra_metas.data,
                ..old(self).extra_metas
            }));
            assert(self.authority == (Account { lamports: self.authority.lamports, ..old(self).authority }));
        }
        Ok(())
    }
}

} // verus!
